//! The stages of the configuration builders. Each stage holds what the
//! earlier ones chose; its fields are reachable only through the builders.
use crate::dns::DnsResolverSetting;
use crate::net::{Ipv6DualStackConfig, SocketAddress};
use crate::transport::TransportParams;
use rustls::ClientConfig as TlsClientConfig;
use rustls::ServerConfig as TlsServerConfig;
use vstd::prelude::*;

verus! {

/// First stage, of both tracks: a bind address is wanted.
pub struct WantsBindAddress {}

/// Second stage of the server track: a certificate is wanted.
pub struct WantsCertificate {
    pub(crate) bind_address: SocketAddress,
    pub(crate) dual_stack_config: Ipv6DualStackConfig,
}

/// Second stage of the client track: a root of trust is wanted.
pub struct WantsRootStore {
    pub(crate) bind_address: SocketAddress,
    pub(crate) dual_stack_config: Ipv6DualStackConfig,
}

/// Last stage of the server track: transport tuning, then `build`.
pub struct WantsTransportConfigServer {
    pub(crate) bind_address: SocketAddress,
    pub(crate) dual_stack_config: Ipv6DualStackConfig,
    pub(crate) tls_config: TlsServerConfig,
    pub(crate) transport: TransportParams,
    pub(crate) migration: bool,
}

/// Last stage of the client track: transport tuning, then `build`.
pub struct WantsTransportConfigClient<R> {
    pub(crate) bind_address: SocketAddress,
    pub(crate) dual_stack_config: Ipv6DualStackConfig,
    pub(crate) tls_config: TlsClientConfig,
    pub(crate) transport: TransportParams,
    pub(crate) dns_resolver: DnsResolverSetting<R>,
}

} // verus!
