//! Client configuration and its typestate builder.
use crate::net::{bind_socket, IpBindConfig, Ipv6DualStackConfig, SocketAddress, SocketAddressV6};
use crate::dns::{DnsResolverSetting, SystemResolver};
use crate::states::{WantsBindAddress, WantsRootStore, WantsTransportConfigClient};
use crate::time::Duration;
use crate::tls::{
    accepted_roots, alpn_list_spec, client_alpn, client_key_log_file, client_offers_certificate,
    client_tls_config, client_trust_roots, native_cert_store, set_key_log_file,
};
use crate::transport::{idle_timeout_representable, transport_applies, InvalidIdleTimeout, TransportParams};
use quinn::ClientConfig as QuicClientConfig;
use rustls::ClientConfig as TlsClientConfig;
use vstd::prelude::*;

verus! {

#[verifier::external_type_specification]
#[verifier::external_body]
pub struct ExQuicClientConfig(QuicClientConfig);

/// The TLS configuration that a QUIC client configuration wraps.
pub uninterp spec fn quic_client_crypto(config: QuicClientConfig) -> TlsClientConfig;

/// The transport configuration that a QUIC client configuration holds.
pub uninterp spec fn quic_client_transport(config: QuicClientConfig) -> quinn::TransportConfig;

/// Relies on `quinn::ClientConfig::new`, which wraps the TLS configuration.
#[verifier::external_body]
fn quic_client_config(tls: TlsClientConfig) -> (r: QuicClientConfig)
    ensures
        quic_client_crypto(r) == tls,
{
    QuicClientConfig::new(std::sync::Arc::new(tls))
}

/// Relies on `quinn::ClientConfig::transport_config`, which stores the
/// transport settings and changes nothing else.
#[verifier::external_body]
fn set_client_transport(config: &mut QuicClientConfig, transport: quinn::TransportConfig)
    ensures
        quic_client_transport(*final(config)) == transport,
        quic_client_crypto(*final(config)) == quic_client_crypto(*old(config)),
{
    config.transport_config(std::sync::Arc::new(transport));
}

/// A finished client configuration; `R` is the type of a custom resolver.
///
/// Besides the QUIC configuration it records the transport parameters that
/// `build` applied to it; tuning made afterwards through `quic_config_mut` is
/// not reflected in that record.
pub struct ClientConfig<R> {
    bind_address: SocketAddress,
    dual_stack_config: Ipv6DualStackConfig,
    transport: TransportParams,
    quic_config: QuicClientConfig,
    dns_resolver: DnsResolverSetting<R>,
}

/// Builder of a client configuration; `State` is its stage.
///
/// A builder starts at `WantsBindAddress`, where one bind method leads to
/// `WantsRootStore`; there one credential method leads to
/// `WantsTransportConfigClient`, whose tuning methods may be called in any
/// order and whose `build` finishes. Each method consumes the builder, and no
/// method leads back or skips a stage.
#[must_use]
pub struct ClientConfigBuilder<State>(State);

impl ClientConfig<SystemResolver> {
    /// A builder at its first stage.
    pub fn builder() -> ClientConfigBuilder<WantsBindAddress> {
        ClientConfigBuilder(WantsBindAddress {})
    }
}

impl<R> ClientConfig<R> {
    pub closed spec fn spec_bind_address(&self) -> SocketAddress {
        self.bind_address
    }

    pub closed spec fn spec_dual_stack_config(&self) -> Ipv6DualStackConfig {
        self.dual_stack_config
    }

    pub closed spec fn spec_transport(&self) -> TransportParams {
        self.transport
    }

    pub closed spec fn spec_dns_resolver(&self) -> DnsResolverSetting<R> {
        self.dns_resolver
    }

    pub closed spec fn spec_quic_config(&self) -> QuicClientConfig {
        self.quic_config
    }

    /// The local socket address to bind.
    pub fn bind_address(&self) -> (r: SocketAddress)
        ensures
            r == self.spec_bind_address(),
    {
        self.bind_address
    }

    /// The dual-stack policy of the bound socket.
    pub fn dual_stack_config(&self) -> (r: Ipv6DualStackConfig)
        ensures
            r == self.spec_dual_stack_config(),
    {
        self.dual_stack_config
    }

    /// The transport parameters applied to the QUIC configuration.
    pub fn transport_params(&self) -> (r: TransportParams)
        ensures
            r == self.spec_transport(),
    {
        self.transport
    }

    /// The resolver that host names are looked up with.
    pub fn dns_resolver(&self) -> (r: &DnsResolverSetting<R>)
        ensures
            *r == self.spec_dns_resolver(),
    {
        &self.dns_resolver
    }

    /// Whether host names are looked up with the operating system's resolver.
    pub fn uses_system_resolver(&self) -> (r: bool)
        ensures
            r == self.spec_dns_resolver() is System,
    {
        match &self.dns_resolver {
            DnsResolverSetting::System => true,
            DnsResolverSetting::Custom(_) => false,
        }
    }

    /// The inner QUIC configuration.
    pub fn quic_config(&self) -> (r: &QuicClientConfig)
        ensures
            *r == self.spec_quic_config(),
    {
        &self.quic_config
    }

    /// The inner QUIC configuration, for tuning beyond the builder's options.
    /// The recorded parameters stay those that `build` applied.
    pub fn quic_config_mut(&mut self) -> (r: &mut QuicClientConfig)
        ensures
            *r == old(self).spec_quic_config(),
            final(self).spec_quic_config() == *final(r),
            final(self).spec_bind_address() == old(self).spec_bind_address(),
            final(self).spec_dual_stack_config() == old(self).spec_dual_stack_config(),
            final(self).spec_transport() == old(self).spec_transport(),
            final(self).spec_dns_resolver() == old(self).spec_dns_resolver(),
    {
        &mut self.quic_config
    }
}

impl ClientConfigBuilder<WantsBindAddress> {
    /// Binds the unspecified IPv6 address with dual stack allowed, on a port
    /// that the OS picks.
    pub fn with_bind_default(self) -> (r: ClientConfigBuilder<WantsRootStore>)
        ensures
            (r.spec_bind_address(), r.spec_dual_stack_config()) == bind_socket(IpBindConfig::InAddrAnyDual, 0),
    {
        self.with_bind_config(IpBindConfig::InAddrAnyDual)
    }

    /// Binds the address that `ip_bind_config` names, on a port that the OS picks.
    pub fn with_bind_config(self, ip_bind_config: IpBindConfig) -> (r: ClientConfigBuilder<WantsRootStore>)
        ensures
            (r.spec_bind_address(), r.spec_dual_stack_config()) == bind_socket(ip_bind_config, 0),
    {
        let (address, dual_stack_config) = ip_bind_config.into_socket(0);
        match address {
            SocketAddress::V6(v6) => self.with_bind_address_v6(v6, dual_stack_config),
            _ => self.with_bind_address(address),
        }
    }

    /// Binds `address`, with the OS default dual-stack policy.
    pub fn with_bind_address(self, address: SocketAddress) -> (r: ClientConfigBuilder<WantsRootStore>)
        ensures
            r.spec_bind_address() == address,
            r.spec_dual_stack_config() == Ipv6DualStackConfig::OsDefault,
    {
        ClientConfigBuilder(WantsRootStore { bind_address: address, dual_stack_config: Ipv6DualStackConfig::OsDefault })
    }

    /// Binds the IPv6 `address` with the given dual-stack policy.
    pub fn with_bind_address_v6(self, address: SocketAddressV6, dual_stack_config: Ipv6DualStackConfig) -> (r:
        ClientConfigBuilder<WantsRootStore>)
        ensures
            r.spec_bind_address() == SocketAddress::V6(address),
            r.spec_dual_stack_config() == dual_stack_config,
    {
        ClientConfigBuilder(WantsRootStore { bind_address: SocketAddress::V6(address), dual_stack_config })
    }
}

impl ClientConfigBuilder<WantsRootStore> {
    pub closed spec fn spec_bind_address(&self) -> SocketAddress {
        self.0.bind_address
    }

    pub closed spec fn spec_dual_stack_config(&self) -> Ipv6DualStackConfig {
        self.0.dual_stack_config
    }

    /// Trusts the platform's root certificates, given as the outcome of
    /// loading them: each certificate that parses as a trust anchor is
    /// trusted, and a failed load leaves nothing trusted rather than failing.
    ///
    /// That last choice favours a usable configuration over a loud failure: a
    /// client that trusts nothing fails only when it connects.
    pub fn with_native_certs(self, native_certs: Result<Vec<Vec<u8>>, std::io::Error>) -> (r:
        ClientConfigBuilder<WantsTransportConfigClient<SystemResolver>>)
        ensures
            r.spec_bind_address() == self.spec_bind_address(),
            r.spec_dual_stack_config() == self.spec_dual_stack_config(),
            r.spec_transport().is_default(),
            r.spec_dns_resolver() is System,
            r.wf(),
            client_trust_roots(r.spec_tls_config()) == match native_certs {
                Ok(certs) => accepted_roots(certs@),
                Err(_) => Seq::<Seq<u8>>::empty(),
            },
            client_alpn(r.spec_tls_config()) == alpn_list_spec(),
            !client_key_log_file(r.spec_tls_config()),
            !client_offers_certificate(r.spec_tls_config()),
    {
        let tls_config = client_tls_config(native_cert_store(native_certs));
        self.with_custom_tls(tls_config)
    }

    /// Uses `tls_config` as the TLS configuration.
    pub fn with_custom_tls(self, tls_config: TlsClientConfig) -> (r: ClientConfigBuilder<
        WantsTransportConfigClient<SystemResolver>,
    >)
        ensures
            r.spec_bind_address() == self.spec_bind_address(),
            r.spec_dual_stack_config() == self.spec_dual_stack_config(),
            r.spec_transport().is_default(),
            r.spec_dns_resolver() is System,
            r.wf(),
            r.spec_tls_config() == tls_config,
    {
        ClientConfigBuilder(
            WantsTransportConfigClient {
                bind_address: self.0.bind_address,
                dual_stack_config: self.0.dual_stack_config,
                tls_config,
                transport: TransportParams::new(),
                dns_resolver: DnsResolverSetting::System,
            },
        )
    }
}

impl<R> ClientConfigBuilder<WantsTransportConfigClient<R>> {
    pub closed spec fn spec_bind_address(&self) -> SocketAddress {
        self.0.bind_address
    }

    pub closed spec fn spec_dual_stack_config(&self) -> Ipv6DualStackConfig {
        self.0.dual_stack_config
    }

    pub closed spec fn spec_transport(&self) -> TransportParams {
        self.0.transport
    }

    pub closed spec fn spec_dns_resolver(&self) -> DnsResolverSetting<R> {
        self.0.dns_resolver
    }

    pub closed spec fn spec_tls_config(&self) -> TlsClientConfig {
        self.0.tls_config
    }

    /// The stage's invariant: its idle timeout can be encoded.
    pub closed spec fn wf(&self) -> bool {
        self.0.transport.wf()
    }

    /// Completes the configuration: the transport parameters are applied to
    /// the QUIC configuration.
    pub fn build(self) -> (r: ClientConfig<R>)
        requires
            self.wf(),
        ensures
            r.spec_bind_address() == self.spec_bind_address(),
            r.spec_dual_stack_config() == self.spec_dual_stack_config(),
            r.spec_transport() == self.spec_transport(),
            r.spec_dns_resolver() == self.spec_dns_resolver(),
            quic_client_crypto(r.spec_quic_config()) == self.spec_tls_config(),
            transport_applies(quic_client_transport(r.spec_quic_config()), self.spec_transport()),
    {
        let mut quic_config = quic_client_config(self.0.tls_config);
        set_client_transport(&mut quic_config, self.0.transport.to_transport_config());
        ClientConfig {
            bind_address: self.0.bind_address,
            dual_stack_config: self.0.dual_stack_config,
            transport: self.0.transport,
            quic_config,
            dns_resolver: self.0.dns_resolver,
        }
    }

    /// Maximum duration of inactivity before a connection times out; `None`
    /// is no timeout. A duration that the engine cannot encode is refused
    /// and the builder comes back unchanged with the error.
    pub fn max_idle_timeout(self, idle_timeout: Option<Duration>) -> (r: Result<Self, (InvalidIdleTimeout, Self)>)
        requires
            self.wf(),
        ensures
            r.is_ok() == match idle_timeout {
                Some(d) => idle_timeout_representable(d),
                None => true,
            },
            match r {
                Ok(b) => b.wf() && b.spec_transport() == (TransportParams {
                    max_idle_timeout: idle_timeout,
                    ..self.spec_transport()
                }) && b.spec_bind_address() == self.spec_bind_address()
                    && b.spec_dual_stack_config() == self.spec_dual_stack_config()
                    && b.spec_tls_config() == self.spec_tls_config()
                    && b.spec_dns_resolver() == self.spec_dns_resolver(),
                Err((_, b)) => b.wf() && b.spec_transport() == self.spec_transport()
                    && b.spec_bind_address() == self.spec_bind_address()
                    && b.spec_dual_stack_config() == self.spec_dual_stack_config()
                    && b.spec_tls_config() == self.spec_tls_config()
                    && b.spec_dns_resolver() == self.spec_dns_resolver(),
            },
    {
        let mut this = self;
        if this.0.transport.set_max_idle_timeout(idle_timeout) {
            Ok(this)
        } else {
            Err((InvalidIdleTimeout, this))
        }
    }

    /// Period of inactivity before a keep-alive packet is sent; `None`, the
    /// default, sends none.
    pub fn keep_alive_interval(self, interval: Option<Duration>) -> (r: Self)
        requires
            self.wf(),
        ensures
            r.wf(),
            r.spec_transport() == (TransportParams { keep_alive_interval: interval, ..self.spec_transport() }),
            r.spec_bind_address() == self.spec_bind_address(),
            r.spec_dual_stack_config() == self.spec_dual_stack_config(),
            r.spec_tls_config() == self.spec_tls_config(),
            r.spec_dns_resolver() == self.spec_dns_resolver(),
    {
        let mut this = self;
        this.0.transport.keep_alive_interval = interval;
        this
    }

    /// Looks host names up with `dns_resolver` in place of the system's resolver.
    pub fn dns_resolver<S>(self, dns_resolver: S) -> (r: ClientConfigBuilder<WantsTransportConfigClient<S>>)
        requires
            self.wf(),
        ensures
            r.wf(),
            r.spec_dns_resolver() == DnsResolverSetting::Custom(dns_resolver),
            r.spec_transport() == self.spec_transport(),
            r.spec_bind_address() == self.spec_bind_address(),
            r.spec_dual_stack_config() == self.spec_dual_stack_config(),
            r.spec_tls_config() == self.spec_tls_config(),
    {
        ClientConfigBuilder(
            WantsTransportConfigClient {
                bind_address: self.0.bind_address,
                dual_stack_config: self.0.dual_stack_config,
                tls_config: self.0.tls_config,
                transport: self.0.transport,
                dns_resolver: DnsResolverSetting::Custom(dns_resolver),
            },
        )
    }

    /// Writes TLS key material to the file that the `SSLKEYLOGFILE`
    /// environment variable names, for debugging.
    pub fn enable_key_log(self) -> (r: Self)
        requires
            self.wf(),
        ensures
            r.wf(),
            r.spec_transport() == self.spec_transport(),
            r.spec_bind_address() == self.spec_bind_address(),
            r.spec_dual_stack_config() == self.spec_dual_stack_config(),
            client_key_log_file(r.spec_tls_config()),
            client_alpn(r.spec_tls_config()) == client_alpn(self.spec_tls_config()),
            client_trust_roots(r.spec_tls_config()) == client_trust_roots(self.spec_tls_config()),
            client_offers_certificate(r.spec_tls_config()) == client_offers_certificate(
                self.spec_tls_config(),
            ),
            r.spec_dns_resolver() == self.spec_dns_resolver(),
    {
        let mut this = self;
        set_key_log_file(&mut this.0.tls_config);
        this
    }
}

} // verus!
