use wtransport::client::ClientConfig;
use wtransport::dns::{DnsResolverSetting, LookupState, PollAction};
use wtransport::net::{
    IpAddress, IpBindConfig, Ipv6DualStackConfig, SocketAddress, SocketAddressV4, SocketAddressV6,
};
use wtransport::server::ServerConfig;
use wtransport::time::Duration;
use wtransport::tls::{client_tls_config, native_cert_store, server_tls_config, webtransport_alpn, Certificate};
use wtransport::transport::{InvalidIdleTimeout, TransportParams};

/// A PKCS#8 (v1) Ed25519 private key with a fixed seed.
fn ed25519_key() -> Vec<u8> {
    let mut key = vec![
        0x30, 0x2e, 0x02, 0x01, 0x00, 0x30, 0x05, 0x06, 0x03, 0x2b, 0x65, 0x70, 0x04, 0x22, 0x04, 0x20,
    ];
    key.extend((0u8..32).map(|b| b.wrapping_mul(7).wrapping_add(3)));
    key
}

fn test_certificate() -> Certificate {
    Certificate { certificates: vec![vec![0x30, 0x03, 0x02, 0x01, 0x01]], private_key: ed25519_key() }
}

#[test]
fn bind_presets_resolve_to_table() {
    let cases = [
        (IpBindConfig::LocalV4, IpAddress::V4(0x7f00_0001), Ipv6DualStackConfig::OsDefault),
        (IpBindConfig::LocalV6, IpAddress::V6(1), Ipv6DualStackConfig::Deny),
        (IpBindConfig::LocalDual, IpAddress::V6(1), Ipv6DualStackConfig::Allow),
        (IpBindConfig::InAddrAnyV4, IpAddress::V4(0), Ipv6DualStackConfig::OsDefault),
        (IpBindConfig::InAddrAnyV6, IpAddress::V6(0), Ipv6DualStackConfig::Deny),
        (IpBindConfig::InAddrAnyDual, IpAddress::V6(0), Ipv6DualStackConfig::Allow),
    ];
    for (config, ip, dual) in cases {
        assert_eq!(config.into_ip(), ip);
        assert_eq!(config.into_dual_stack_config(), dual);
    }
}

#[test]
fn bind_preset_into_socket() {
    let (v4, dual) = IpBindConfig::LocalV4.into_socket(8080);
    assert_eq!(v4, SocketAddress::V4(SocketAddressV4 { ip: 0x7f00_0001, port: 8080 }));
    assert_eq!(dual, Ipv6DualStackConfig::OsDefault);
    let (v6, dual) = IpBindConfig::InAddrAnyV6.into_socket(9);
    assert_eq!(v6, SocketAddress::V6(SocketAddressV6 { ip: 0, port: 9, flowinfo: 0, scope_id: 0 }));
    assert_eq!(dual, Ipv6DualStackConfig::Deny);
    assert_eq!(v6.port(), 9);
    assert_eq!(v6.ip(), IpAddress::V6(0));
}

#[test]
fn server_bind_config_v4_keeps_os_default() {
    let config = ServerConfig::builder()
        .with_bind_config(IpBindConfig::LocalV4, 4433)
        .with_certificate(test_certificate())
        .build();
    assert_eq!(config.bind_address(), SocketAddress::V4(SocketAddressV4 { ip: 0x7f00_0001, port: 4433 }));
    assert_eq!(config.dual_stack_config(), Ipv6DualStackConfig::OsDefault);
}

#[test]
fn server_bind_address_v6_keeps_policy() {
    let address = SocketAddressV6 { ip: 1, port: 5000, flowinfo: 7, scope_id: 2 };
    let config = ServerConfig::builder()
        .with_bind_address_v6(address, Ipv6DualStackConfig::Deny)
        .with_certificate(test_certificate())
        .build();
    assert_eq!(config.bind_address(), SocketAddress::V6(address));
    assert_eq!(config.dual_stack_config(), Ipv6DualStackConfig::Deny);
}

#[test]
fn server_end_to_end_default_bind() {
    let config = ServerConfig::builder().with_bind_default(443).with_certificate(test_certificate()).build();
    assert_eq!(config.bind_address(), SocketAddress::V6(SocketAddressV6 { ip: 0, port: 443, flowinfo: 0, scope_id: 0 }));
    assert_eq!(config.bind_address().port(), 443);
    assert_eq!(config.dual_stack_config(), Ipv6DualStackConfig::Allow);
    assert_eq!(config.transport_params(), TransportParams { max_idle_timeout: None, keep_alive_interval: None });
    assert!(config.migration());
    let _ = config.quic_config();
}

#[test]
fn server_rejects_unusable_key() {
    let certificate = Certificate { certificates: vec![vec![1, 2, 3]], private_key: vec![0, 1, 2, 3] };
    let builder = ServerConfig::builder().with_bind_default(443).try_with_certificate(certificate);
    assert!(builder.is_err());
}

#[test]
fn server_accepts_usable_key() {
    let builder = ServerConfig::builder().with_bind_default(443).try_with_certificate(test_certificate());
    assert!(builder.is_ok());
}

#[test]
fn client_end_to_end_native_certs() {
    let config = ClientConfig::builder().with_bind_default().with_native_certs(Ok(Vec::new())).build();
    assert!(config.uses_system_resolver());
    assert_eq!(config.transport_params().max_idle_timeout, None);
    assert_eq!(config.bind_address(), SocketAddress::V6(SocketAddressV6 { ip: 0, port: 0, flowinfo: 0, scope_id: 0 }));
    assert_eq!(config.dual_stack_config(), Ipv6DualStackConfig::Allow);
}

#[test]
fn client_native_cert_failure_still_builds() {
    let failure = std::io::Error::new(std::io::ErrorKind::NotFound, "no platform store");
    let config = ClientConfig::builder().with_bind_default().with_native_certs(Err(failure)).build();
    assert!(config.uses_system_resolver());
}

#[test]
fn native_cert_store_failed_load_is_empty() {
    let failure = std::io::Error::new(std::io::ErrorKind::Other, "unreadable");
    assert_eq!(native_cert_store(Err(failure)).len(), 0);
}

#[test]
fn native_cert_store_skips_unparsable() {
    let store = native_cert_store(Ok(vec![vec![0xde, 0xad], vec![0x30, 0x00], Vec::new()]));
    assert_eq!(store.len(), 0);
}

#[test]
fn idle_timeout_representable_is_set() {
    let builder = ServerConfig::builder().with_bind_default(443).with_certificate(test_certificate());
    let builder = match builder.max_idle_timeout(Some(Duration::from_secs(30))) {
        Ok(b) => b,
        Err(_) => panic!("a thirty second timeout is representable"),
    };
    let config = builder.build();
    assert_eq!(config.transport_params().max_idle_timeout, Some(Duration::from_secs(30)));
}

#[test]
fn idle_timeout_largest_representable() {
    let largest = Duration::from_millis((1u64 << 62) - 1);
    let builder = ClientConfig::builder().with_bind_default().with_native_certs(Ok(Vec::new()));
    let builder = match builder.max_idle_timeout(Some(largest)) {
        Ok(b) => b,
        Err(_) => panic!("the largest encodable timeout is accepted"),
    };
    assert_eq!(builder.build().transport_params().max_idle_timeout, Some(largest));
}

#[test]
fn idle_timeout_too_large_is_refused_unchanged() {
    let builder = ServerConfig::builder()
        .with_bind_default(443)
        .with_certificate(test_certificate())
        .keep_alive_interval(Some(Duration::from_secs(3)))
        .allow_migration(false);
    let builder = match builder.max_idle_timeout(Some(Duration::from_millis(1u64 << 62))) {
        Ok(_) => panic!("a timeout of 2^62 ms cannot be encoded"),
        Err((InvalidIdleTimeout, b)) => b,
    };
    let config = builder.build();
    assert_eq!(config.transport_params().max_idle_timeout, None);
    assert_eq!(config.transport_params().keep_alive_interval, Some(Duration::from_secs(3)));
    assert!(!config.migration());
    assert_eq!(config.dual_stack_config(), Ipv6DualStackConfig::Allow);
}

#[test]
fn idle_timeout_huge_seconds_is_refused() {
    let builder = ClientConfig::builder().with_bind_default().with_native_certs(Ok(Vec::new()));
    assert!(builder.max_idle_timeout(Some(Duration::from_secs(u64::MAX))).is_err());
}

#[test]
fn idle_timeout_none_equals_never_set() {
    let set_none = ServerConfig::builder().with_bind_default(443).with_certificate(test_certificate());
    let set_none = match set_none.max_idle_timeout(None) {
        Ok(b) => b,
        Err(_) => panic!("no timeout is always accepted"),
    };
    let never = ServerConfig::builder().with_bind_default(443).with_certificate(test_certificate());
    assert_eq!(set_none.build().transport_params(), never.build().transport_params());
}

#[test]
fn keep_alive_and_migration_are_recorded() {
    let config = ServerConfig::builder()
        .with_bind_default(443)
        .with_certificate(test_certificate())
        .keep_alive_interval(Some(Duration::from_millis(2500)))
        .allow_migration(false)
        .build();
    assert_eq!(config.transport_params().keep_alive_interval, Some(Duration::from_millis(2500)));
    assert!(!config.migration());
}

#[test]
fn client_custom_resolver_and_key_log() {
    let config = ClientConfig::builder()
        .with_bind_config(IpBindConfig::LocalV4)
        .with_native_certs(Ok(Vec::new()))
        .keep_alive_interval(Some(Duration::from_secs(1)))
        .enable_key_log()
        .dns_resolver(42u32)
        .build();
    assert_eq!(*config.dns_resolver(), DnsResolverSetting::Custom(42u32));
    assert!(!config.uses_system_resolver());
    assert_eq!(config.bind_address(), SocketAddress::V4(SocketAddressV4 { ip: 0x7f00_0001, port: 0 }));
    assert_eq!(config.transport_params().keep_alive_interval, Some(Duration::from_secs(1)));
}

#[test]
fn client_bind_address_uses_os_default() {
    let address = SocketAddress::V4(SocketAddressV4 { ip: 0x0a00_0001, port: 1234 });
    let mut config = ClientConfig::builder().with_bind_address(address).with_native_certs(Ok(Vec::new())).build();
    assert_eq!(config.bind_address(), address);
    assert_eq!(config.dual_stack_config(), Ipv6DualStackConfig::OsDefault);
    let _ = config.quic_config_mut();
    assert_eq!(config.bind_address(), address);
}

#[test]
fn alpn_identifier_is_h3() {
    assert_eq!(webtransport_alpn(), b"h3".to_vec());
}

#[test]
fn invalid_idle_timeout_message() {
    assert_eq!(InvalidIdleTimeout.message(), "idle timeout value configuration is invalid");
}

#[test]
fn duration_conversions() {
    let d = Duration::from_millis(1500);
    assert_eq!(d.as_secs(), 1);
    assert_eq!(d.subsec_nanos(), 500_000_000);
    assert_eq!(d.as_millis(), 1500);
    let carried = Duration::new(2, 1_250_000_000);
    assert_eq!(carried.as_secs(), 3);
    assert_eq!(carried.subsec_nanos(), 250_000_000);
    assert_eq!(carried.as_millis(), 3250);
    assert_eq!(Duration::from_secs(7).as_millis(), 7000);
}

#[test]
fn two_polls_start_one_lookup() {
    let mut state: LookupState<u32> = LookupState::new();
    assert_eq!(state.on_poll(), PollAction::StartLookup);
    assert_eq!(state, LookupState::Pending);
    assert_eq!(state.on_poll(), PollAction::PollLookup);
    assert_eq!(state, LookupState::Pending);
}

#[test]
fn finished_lookup_is_cached() {
    let mut state: LookupState<u32> = LookupState::new();
    assert_eq!(state.on_poll(), PollAction::StartLookup);
    state.on_finished(80);
    assert_eq!(state.on_poll(), PollAction::Ready(80));
    assert_eq!(state.on_poll(), PollAction::Ready(80));
    state.on_finished(81);
    assert_eq!(state.on_poll(), PollAction::Ready(80));
}

#[test]
fn finish_without_lookup_is_ignored() {
    let mut state: LookupState<u32> = LookupState::new();
    state.on_finished(5);
    assert_eq!(state, LookupState::Idle);
    assert_eq!(state.on_poll(), PollAction::StartLookup);
}

#[test]
fn dropped_pending_lookup_leaves_fresh_resolver_alone() {
    let mut pending: LookupState<u32> = LookupState::new();
    assert_eq!(pending.on_poll(), PollAction::StartLookup);
    drop(pending);
    let mut fresh: LookupState<u32> = LookupState::new();
    assert_eq!(fresh.on_poll(), PollAction::StartLookup);
    fresh.on_finished(1);
    assert_eq!(fresh.on_poll(), PollAction::Ready(1));
}

#[test]
fn server_tls_config_offers_h3_only() {
    let config = server_tls_config(&test_certificate());
    assert_eq!(config.alpn_protocols, vec![b"h3".to_vec()]);
}

#[test]
fn client_tls_config_offers_h3_only() {
    let config = client_tls_config(rustls::RootCertStore::empty());
    assert_eq!(config.alpn_protocols, vec![b"h3".to_vec()]);
}
