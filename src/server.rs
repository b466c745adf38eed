//! Server configuration and its typestate builder.
use crate::net::{bind_socket, IpBindConfig, Ipv6DualStackConfig, SocketAddress, SocketAddressV6};
use crate::states::{WantsBindAddress, WantsCertificate, WantsTransportConfigServer};
use crate::time::Duration;
use crate::tls::{
    alpn_list_spec, certificate_is_usable, server_alpn, server_cert_chain, server_offers_client_auth,
    server_signing_key, server_tls_config, signing_key_supported, Certificate,
};
use crate::transport::{idle_timeout_representable, transport_applies, InvalidIdleTimeout, TransportParams};
use quinn::ServerConfig as QuicServerConfig;
use rustls::ServerConfig as TlsServerConfig;
use vstd::prelude::*;

verus! {

/// The TLS configuration that a QUIC server configuration wraps.
pub uninterp spec fn quic_server_crypto(config: QuicServerConfig) -> TlsServerConfig;

/// The transport configuration that a QUIC server configuration holds.
pub uninterp spec fn quic_server_transport(config: QuicServerConfig) -> quinn::TransportConfig;

/// Whether a QUIC server configuration lets clients migrate.
pub uninterp spec fn quic_server_migration(config: QuicServerConfig) -> bool;

/// Relies on `quinn::ServerConfig::with_crypto`, which wraps the TLS
/// configuration with fresh handshake-token keys.
#[verifier::external_body]
fn quic_server_config(tls: TlsServerConfig) -> (r: QuicServerConfig)
    ensures
        quic_server_crypto(r) == tls,
{
    QuicServerConfig::with_crypto(std::sync::Arc::new(tls))
}

/// Relies on `quinn::ServerConfig::transport_config`, which stores the
/// transport settings and changes nothing else.
#[verifier::external_body]
fn set_server_transport(config: &mut QuicServerConfig, transport: quinn::TransportConfig)
    ensures
        quic_server_transport(*final(config)) == transport,
        quic_server_crypto(*final(config)) == quic_server_crypto(*old(config)),
        quic_server_migration(*final(config)) == quic_server_migration(*old(config)),
{
    config.transport_config(std::sync::Arc::new(transport));
}

/// Relies on `quinn::ServerConfig::migration`, which stores the flag and
/// changes nothing else.
#[verifier::external_body]
fn set_server_migration(config: &mut QuicServerConfig, value: bool)
    ensures
        quic_server_migration(*final(config)) == value,
        quic_server_crypto(*final(config)) == quic_server_crypto(*old(config)),
        quic_server_transport(*final(config)) == quic_server_transport(*old(config)),
{
    config.migration(value);
}

#[verifier::external_type_specification]
#[verifier::external_body]
pub struct ExQuicServerConfig(QuicServerConfig);

/// A finished server configuration.
///
/// Besides the QUIC configuration it records the transport parameters and the
/// migration flag that `build` applied to it; tuning made afterwards through
/// `quic_config_mut` is not reflected in those records.
pub struct ServerConfig {
    bind_address: SocketAddress,
    dual_stack_config: Ipv6DualStackConfig,
    transport: TransportParams,
    migration: bool,
    quic_config: QuicServerConfig,
}

/// Builder of a server configuration; `State` is its stage.
///
/// A builder starts at `WantsBindAddress`, where one bind method leads to
/// `WantsCertificate`; there one credential method leads to
/// `WantsTransportConfigServer`, whose tuning methods may be called in any
/// order and whose `build` finishes. Each method consumes the builder, and no
/// method leads back or skips a stage.
#[must_use]
pub struct ServerConfigBuilder<State>(State);

impl ServerConfig {
    pub closed spec fn spec_bind_address(&self) -> SocketAddress {
        self.bind_address
    }

    pub closed spec fn spec_dual_stack_config(&self) -> Ipv6DualStackConfig {
        self.dual_stack_config
    }

    pub closed spec fn spec_transport(&self) -> TransportParams {
        self.transport
    }

    pub closed spec fn spec_migration(&self) -> bool {
        self.migration
    }

    pub closed spec fn spec_quic_config(&self) -> QuicServerConfig {
        self.quic_config
    }

    /// A builder at its first stage.
    pub fn builder() -> ServerConfigBuilder<WantsBindAddress> {
        ServerConfigBuilder(WantsBindAddress {})
    }

    /// The local socket address to bind.
    pub fn bind_address(&self) -> (r: SocketAddress)
        ensures
            r == self.spec_bind_address(),
    {
        self.bind_address
    }

    /// The dual-stack policy of the bound socket.
    pub fn dual_stack_config(&self) -> (r: Ipv6DualStackConfig)
        ensures
            r == self.spec_dual_stack_config(),
    {
        self.dual_stack_config
    }

    /// The transport parameters applied to the QUIC configuration.
    pub fn transport_params(&self) -> (r: TransportParams)
        ensures
            r == self.spec_transport(),
    {
        self.transport
    }

    /// Whether clients may migrate to new addresses.
    pub fn migration(&self) -> (r: bool)
        ensures
            r == self.spec_migration(),
    {
        self.migration
    }

    /// The inner QUIC configuration.
    pub fn quic_config(&self) -> (r: &QuicServerConfig)
        ensures
            *r == self.spec_quic_config(),
    {
        &self.quic_config
    }

    /// The inner QUIC configuration, for tuning beyond the builder's options.
    /// The recorded parameters stay those that `build` applied.
    pub fn quic_config_mut(&mut self) -> (r: &mut QuicServerConfig)
        ensures
            *r == old(self).spec_quic_config(),
            final(self).spec_quic_config() == *final(r),
            final(self).spec_bind_address() == old(self).spec_bind_address(),
            final(self).spec_dual_stack_config() == old(self).spec_dual_stack_config(),
            final(self).spec_transport() == old(self).spec_transport(),
            final(self).spec_migration() == old(self).spec_migration(),
    {
        &mut self.quic_config
    }
}

impl ServerConfigBuilder<WantsBindAddress> {
    /// Binds the unspecified IPv6 address with dual stack allowed, on
    /// `listening_port`.
    pub fn with_bind_default(self, listening_port: u16) -> (r: ServerConfigBuilder<WantsCertificate>)
        ensures
            (r.spec_bind_address(), r.spec_dual_stack_config()) == bind_socket(
                IpBindConfig::InAddrAnyDual,
                listening_port,
            ),
    {
        self.with_bind_config(IpBindConfig::InAddrAnyDual, listening_port)
    }

    /// Binds the address that `ip_bind_config` names, on `listening_port`.
    pub fn with_bind_config(self, ip_bind_config: IpBindConfig, listening_port: u16) -> (r:
        ServerConfigBuilder<WantsCertificate>)
        ensures
            (r.spec_bind_address(), r.spec_dual_stack_config()) == bind_socket(
                ip_bind_config,
                listening_port,
            ),
    {
        let (address, dual_stack_config) = ip_bind_config.into_socket(listening_port);
        match address {
            SocketAddress::V6(v6) => self.with_bind_address_v6(v6, dual_stack_config),
            _ => self.with_bind_address(address),
        }
    }

    /// Binds `address`, with the OS default dual-stack policy.
    pub fn with_bind_address(self, address: SocketAddress) -> (r: ServerConfigBuilder<WantsCertificate>)
        ensures
            r.spec_bind_address() == address,
            r.spec_dual_stack_config() == Ipv6DualStackConfig::OsDefault,
    {
        ServerConfigBuilder(WantsCertificate { bind_address: address, dual_stack_config: Ipv6DualStackConfig::OsDefault })
    }

    /// Binds the IPv6 `address` with the given dual-stack policy.
    pub fn with_bind_address_v6(self, address: SocketAddressV6, dual_stack_config: Ipv6DualStackConfig) -> (r:
        ServerConfigBuilder<WantsCertificate>)
        ensures
            r.spec_bind_address() == SocketAddress::V6(address),
            r.spec_dual_stack_config() == dual_stack_config,
    {
        ServerConfigBuilder(WantsCertificate { bind_address: SocketAddress::V6(address), dual_stack_config })
    }
}

impl ServerConfigBuilder<WantsCertificate> {
    pub closed spec fn spec_bind_address(&self) -> SocketAddress {
        self.0.bind_address
    }

    pub closed spec fn spec_dual_stack_config(&self) -> Ipv6DualStackConfig {
        self.0.dual_stack_config
    }

    /// Configures TLS with safe defaults and `certificate`, whose key must be
    /// one that rustls supports (a certificate loaded and checked beforehand).
    pub fn with_certificate(self, certificate: Certificate) -> (r: ServerConfigBuilder<WantsTransportConfigServer>)
        requires
            signing_key_supported(certificate.private_key@),
        ensures
            r.spec_bind_address() == self.spec_bind_address(),
            r.spec_dual_stack_config() == self.spec_dual_stack_config(),
            r.spec_transport().is_default(),
            r.spec_migration(),
            r.wf(),
            server_alpn(r.spec_tls_config()) == alpn_list_spec(),
            !server_offers_client_auth(r.spec_tls_config()),
            server_cert_chain(r.spec_tls_config()) == certificate.certificates@.map_values(|b: Vec<u8>| b@),
            server_signing_key(r.spec_tls_config()) == certificate.private_key@,
    {
        let tls_config = server_tls_config(&certificate);
        self.with_custom_tls(tls_config)
    }

    /// As `with_certificate`, when rustls accepts the certificate's key;
    /// otherwise the builder comes back unchanged.
    pub fn try_with_certificate(self, certificate: Certificate) -> (r: Result<
        ServerConfigBuilder<WantsTransportConfigServer>,
        ServerConfigBuilder<WantsCertificate>,
    >)
        ensures
            r.is_ok() == signing_key_supported(certificate.private_key@),
            match r {
                Ok(b) => b.spec_bind_address() == self.spec_bind_address()
                    && b.spec_dual_stack_config() == self.spec_dual_stack_config()
                    && b.spec_transport().is_default() && b.spec_migration() && b.wf()
                    && server_alpn(b.spec_tls_config()) == alpn_list_spec()
                    && !server_offers_client_auth(b.spec_tls_config())
                    && server_cert_chain(b.spec_tls_config()) == certificate.certificates@.map_values(
                    |c: Vec<u8>| c@,
                ) && server_signing_key(b.spec_tls_config()) == certificate.private_key@,
                Err(b) => b.spec_bind_address() == self.spec_bind_address()
                    && b.spec_dual_stack_config() == self.spec_dual_stack_config(),
            },
    {
        if certificate_is_usable(&certificate) {
            Ok(self.with_certificate(certificate))
        } else {
            Err(self)
        }
    }

    /// Uses `tls_config` as the TLS configuration.
    pub fn with_custom_tls(self, tls_config: TlsServerConfig) -> (r: ServerConfigBuilder<
        WantsTransportConfigServer,
    >)
        ensures
            r.spec_bind_address() == self.spec_bind_address(),
            r.spec_dual_stack_config() == self.spec_dual_stack_config(),
            r.spec_transport().is_default(),
            r.spec_migration(),
            r.wf(),
            r.spec_tls_config() == tls_config,
    {
        ServerConfigBuilder(
            WantsTransportConfigServer {
                bind_address: self.0.bind_address,
                dual_stack_config: self.0.dual_stack_config,
                tls_config,
                transport: TransportParams::new(),
                migration: true,
            },
        )
    }
}

impl ServerConfigBuilder<WantsTransportConfigServer> {
    pub closed spec fn spec_bind_address(&self) -> SocketAddress {
        self.0.bind_address
    }

    pub closed spec fn spec_dual_stack_config(&self) -> Ipv6DualStackConfig {
        self.0.dual_stack_config
    }

    pub closed spec fn spec_transport(&self) -> TransportParams {
        self.0.transport
    }

    pub closed spec fn spec_migration(&self) -> bool {
        self.0.migration
    }

    pub closed spec fn spec_tls_config(&self) -> TlsServerConfig {
        self.0.tls_config
    }

    /// The stage's invariant: its idle timeout can be encoded.
    pub closed spec fn wf(&self) -> bool {
        self.0.transport.wf()
    }

    /// Completes the configuration: the transport parameters and the migration
    /// flag are applied to the QUIC configuration.
    pub fn build(self) -> (r: ServerConfig)
        requires
            self.wf(),
        ensures
            r.spec_bind_address() == self.spec_bind_address(),
            r.spec_dual_stack_config() == self.spec_dual_stack_config(),
            r.spec_transport() == self.spec_transport(),
            r.spec_migration() == self.spec_migration(),
            quic_server_crypto(r.spec_quic_config()) == self.spec_tls_config(),
            transport_applies(quic_server_transport(r.spec_quic_config()), self.spec_transport()),
            quic_server_migration(r.spec_quic_config()) == self.spec_migration(),
    {
        let mut quic_config = quic_server_config(self.0.tls_config);
        set_server_transport(&mut quic_config, self.0.transport.to_transport_config());
        set_server_migration(&mut quic_config, self.0.migration);
        ServerConfig {
            bind_address: self.0.bind_address,
            dual_stack_config: self.0.dual_stack_config,
            transport: self.0.transport,
            migration: self.0.migration,
            quic_config,
        }
    }

    /// Maximum duration of inactivity before a connection times out; `None`
    /// is no timeout. A duration that the engine cannot encode is refused
    /// and the builder comes back unchanged with the error.
    pub fn max_idle_timeout(self, idle_timeout: Option<Duration>) -> (r: Result<Self, (InvalidIdleTimeout, Self)>)
        requires
            self.wf(),
        ensures
            r.is_ok() == match idle_timeout {
                Some(d) => idle_timeout_representable(d),
                None => true,
            },
            match r {
                Ok(b) => b.wf() && b.spec_transport() == (TransportParams {
                    max_idle_timeout: idle_timeout,
                    ..self.spec_transport()
                }) && b.spec_bind_address() == self.spec_bind_address()
                    && b.spec_dual_stack_config() == self.spec_dual_stack_config()
                    && b.spec_tls_config() == self.spec_tls_config()
                    && b.spec_migration() == self.spec_migration(),
                Err((_, b)) => b.wf() && b.spec_transport() == self.spec_transport()
                    && b.spec_bind_address() == self.spec_bind_address()
                    && b.spec_dual_stack_config() == self.spec_dual_stack_config()
                    && b.spec_tls_config() == self.spec_tls_config()
                    && b.spec_migration() == self.spec_migration(),
            },
    {
        let mut this = self;
        if this.0.transport.set_max_idle_timeout(idle_timeout) {
            Ok(this)
        } else {
            Err((InvalidIdleTimeout, this))
        }
    }

    /// Period of inactivity before a keep-alive packet is sent; `None`, the
    /// default, sends none.
    pub fn keep_alive_interval(self, interval: Option<Duration>) -> (r: Self)
        requires
            self.wf(),
        ensures
            r.wf(),
            r.spec_transport() == (TransportParams { keep_alive_interval: interval, ..self.spec_transport() }),
            r.spec_bind_address() == self.spec_bind_address(),
            r.spec_dual_stack_config() == self.spec_dual_stack_config(),
            r.spec_tls_config() == self.spec_tls_config(),
            r.spec_migration() == self.spec_migration(),
    {
        let mut this = self;
        this.0.transport.keep_alive_interval = interval;
        this
    }

    /// Whether clients may migrate to new addresses; allowed by default.
    pub fn allow_migration(self, value: bool) -> (r: Self)
        requires
            self.wf(),
        ensures
            r.wf(),
            r.spec_migration() == value,
            r.spec_transport() == self.spec_transport(),
            r.spec_bind_address() == self.spec_bind_address(),
            r.spec_dual_stack_config() == self.spec_dual_stack_config(),
            r.spec_tls_config() == self.spec_tls_config(),
    {
        let mut this = self;
        this.0.migration = value;
        this
    }
}

} // verus!
