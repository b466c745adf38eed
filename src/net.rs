//! Socket addresses and the bind presets that resolve to them.
use vstd::prelude::*;

verus! {

/// The IPv4 loopback address, 127.0.0.1, as a big-endian integer.
pub const IPV4_LOCALHOST: u32 = 0x7f00_0001;

/// The IPv4 unspecified address, 0.0.0.0.
pub const IPV4_UNSPECIFIED: u32 = 0;

/// The IPv6 loopback address, ::1, as a big-endian integer.
pub const IPV6_LOCALHOST: u128 = 1;

/// The IPv6 unspecified address, ::.
pub const IPV6_UNSPECIFIED: u128 = 0;

/// An IP address, each family held as its big-endian integer value.
#[derive(Debug, Clone, Copy, PartialEq, Eq, Structural)]
pub enum IpAddress {
    V4(u32),
    V6(u128),
}

/// An IPv4 socket address.
#[derive(Debug, Clone, Copy, PartialEq, Eq, Structural)]
pub struct SocketAddressV4 {
    pub ip: u32,
    pub port: u16,
}

/// An IPv6 socket address.
#[derive(Debug, Clone, Copy, PartialEq, Eq, Structural)]
pub struct SocketAddressV6 {
    pub ip: u128,
    pub port: u16,
    pub flowinfo: u32,
    pub scope_id: u32,
}

/// A socket address of either family.
#[derive(Debug, Clone, Copy, PartialEq, Eq, Structural)]
pub enum SocketAddress {
    V4(SocketAddressV4),
    V6(SocketAddressV6),
}

impl SocketAddress {
    pub open spec fn ip_spec(self) -> IpAddress {
        match self {
            SocketAddress::V4(a) => IpAddress::V4(a.ip),
            SocketAddress::V6(a) => IpAddress::V6(a.ip),
        }
    }

    pub open spec fn port_spec(self) -> u16 {
        match self {
            SocketAddress::V4(a) => a.port,
            SocketAddress::V6(a) => a.port,
        }
    }

    /// The IP address of this socket address.
    #[verifier::when_used_as_spec(ip_spec)]
    pub fn ip(self) -> (r: IpAddress)
        ensures
            r == self.ip_spec(),
    {
        match self {
            SocketAddress::V4(a) => IpAddress::V4(a.ip),
            SocketAddress::V6(a) => IpAddress::V6(a.ip),
        }
    }

    /// The port of this socket address.
    #[verifier::when_used_as_spec(port_spec)]
    pub fn port(self) -> (r: u16)
        ensures
            r == self.port_spec(),
    {
        match self {
            SocketAddress::V4(a) => a.port,
            SocketAddress::V6(a) => a.port,
        }
    }
}

/// Configuration for IPv6 dual stack.
#[derive(Debug, Clone, Copy, PartialEq, Eq, Structural)]
pub enum Ipv6DualStackConfig {
    /// Do not configure dual stack: the OS default applies.
    OsDefault,
    /// Deny dual stack, as `IPV6_V6ONLY` does: the socket binds IPv6 only.
    Deny,
    /// Allow dual stack. Not all platforms support it.
    Allow,
}

/// Preset for the local IP address that a socket binds.
#[derive(Debug, Clone, Copy, PartialEq, Eq, Structural)]
pub enum IpBindConfig {
    /// The IPv4 loopback address (no IPv6).
    LocalV4,
    /// The IPv6 loopback address (no IPv4).
    LocalV6,
    /// The IPv6 loopback address with dual stack, where supported.
    LocalDual,
    /// The IPv4 unspecified address (no IPv6).
    InAddrAnyV4,
    /// The IPv6 unspecified address (no IPv4).
    InAddrAnyV6,
    /// The IPv6 unspecified address with dual stack, where supported.
    InAddrAnyDual,
}

/// The address that each preset binds.
pub open spec fn bind_ip(config: IpBindConfig) -> IpAddress {
    match config {
        IpBindConfig::LocalV4 => IpAddress::V4(IPV4_LOCALHOST),
        IpBindConfig::LocalV6 => IpAddress::V6(IPV6_LOCALHOST),
        IpBindConfig::LocalDual => IpAddress::V6(IPV6_LOCALHOST),
        IpBindConfig::InAddrAnyV4 => IpAddress::V4(IPV4_UNSPECIFIED),
        IpBindConfig::InAddrAnyV6 => IpAddress::V6(IPV6_UNSPECIFIED),
        IpBindConfig::InAddrAnyDual => IpAddress::V6(IPV6_UNSPECIFIED),
    }
}

/// The dual-stack policy that each preset asks for.
pub open spec fn bind_dual_stack(config: IpBindConfig) -> Ipv6DualStackConfig {
    match config {
        IpBindConfig::LocalV4 | IpBindConfig::InAddrAnyV4 => Ipv6DualStackConfig::OsDefault,
        IpBindConfig::LocalV6 | IpBindConfig::InAddrAnyV6 => Ipv6DualStackConfig::Deny,
        IpBindConfig::LocalDual | IpBindConfig::InAddrAnyDual => Ipv6DualStackConfig::Allow,
    }
}

/// The socket address and dual-stack policy that a preset gives with a port:
/// an IPv4 address keeps the OS default, an IPv6 one takes the preset's policy
/// with zero flow information and scope.
pub open spec fn bind_socket(config: IpBindConfig, port: u16) -> (SocketAddress, Ipv6DualStackConfig) {
    match bind_ip(config) {
        IpAddress::V4(ip) => (SocketAddress::V4(SocketAddressV4 { ip, port }), Ipv6DualStackConfig::OsDefault),
        IpAddress::V6(ip) => (
            SocketAddress::V6(SocketAddressV6 { ip, port, flowinfo: 0, scope_id: 0 }),
            bind_dual_stack(config),
        ),
    }
}

impl IpBindConfig {
    /// The IP address that this preset binds.
    pub fn into_ip(self) -> (r: IpAddress)
        ensures
            r == bind_ip(self),
    {
        match self {
            IpBindConfig::LocalV4 => IpAddress::V4(IPV4_LOCALHOST),
            IpBindConfig::LocalV6 => IpAddress::V6(IPV6_LOCALHOST),
            IpBindConfig::LocalDual => IpAddress::V6(IPV6_LOCALHOST),
            IpBindConfig::InAddrAnyV4 => IpAddress::V4(IPV4_UNSPECIFIED),
            IpBindConfig::InAddrAnyV6 => IpAddress::V6(IPV6_UNSPECIFIED),
            IpBindConfig::InAddrAnyDual => IpAddress::V6(IPV6_UNSPECIFIED),
        }
    }

    /// The dual-stack policy that this preset asks for.
    pub fn into_dual_stack_config(self) -> (r: Ipv6DualStackConfig)
        ensures
            r == bind_dual_stack(self),
    {
        match self {
            IpBindConfig::LocalV4 | IpBindConfig::InAddrAnyV4 => Ipv6DualStackConfig::OsDefault,
            IpBindConfig::LocalV6 | IpBindConfig::InAddrAnyV6 => Ipv6DualStackConfig::Deny,
            IpBindConfig::LocalDual | IpBindConfig::InAddrAnyDual => Ipv6DualStackConfig::Allow,
        }
    }

    /// The socket address and dual-stack policy that this preset gives with `port`.
    pub fn into_socket(self, port: u16) -> (r: (SocketAddress, Ipv6DualStackConfig))
        ensures
            r == bind_socket(self, port),
    {
        match self.into_ip() {
            IpAddress::V4(ip) => (SocketAddress::V4(SocketAddressV4 { ip, port }), Ipv6DualStackConfig::OsDefault),
            IpAddress::V6(ip) => (
                SocketAddress::V6(SocketAddressV6 { ip, port, flowinfo: 0, scope_id: 0 }),
                self.into_dual_stack_config(),
            ),
        }
    }
}

} // verus!
