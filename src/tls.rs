//! Default TLS configurations for servers and clients, built with rustls.
use rustls::ClientConfig as TlsClientConfig;
use rustls::ServerConfig as TlsServerConfig;
use vstd::prelude::*;

verus! {

#[verifier::external_type_specification]
#[verifier::external_body]
pub struct ExTlsServerConfig(TlsServerConfig);

#[verifier::external_type_specification]
#[verifier::external_body]
pub struct ExTlsClientConfig(TlsClientConfig);

#[verifier::external_type_specification]
#[verifier::external_body]
pub struct ExRootCertStore(rustls::RootCertStore);

#[verifier::external_type_specification]
#[verifier::external_body]
pub struct ExTlsError(rustls::Error);

#[verifier::external_type_specification]
#[verifier::external_body]
pub struct ExIoError(std::io::Error);

/// The application-protocol identifier that every configuration offers: "h3".
pub open spec fn webtransport_alpn_spec() -> Seq<u8> {
    seq![0x68u8, 0x33u8]
}

/// The application-protocol identifier that every configuration offers.
pub fn webtransport_alpn() -> (r: Vec<u8>)
    ensures
        r@ == webtransport_alpn_spec(),
{
    let mut r: Vec<u8> = Vec::new();
    r.push(0x68u8);
    r.push(0x33u8);
    proof {
        assert(r@ =~= webtransport_alpn_spec());
    }
    r
}

/// The protocol list that every configuration offers: the identifier alone.
pub open spec fn alpn_list_spec() -> Seq<Seq<u8>> {
    seq![webtransport_alpn_spec()]
}

/// The protocol list that every configuration offers.
pub fn alpn_protocols() -> (r: Vec<Vec<u8>>)
    ensures
        r@.map_values(|p: Vec<u8>| p@) == alpn_list_spec(),
{
    let mut r: Vec<Vec<u8>> = Vec::new();
    r.push(webtransport_alpn());
    proof {
        assert(r@.map_values(|p: Vec<u8>| p@) =~= alpn_list_spec());
    }
    r
}

/// A certificate chain and its private key, each DER-encoded.
pub struct Certificate {
    /// The chain, leaf first.
    pub certificates: Vec<Vec<u8>>,
    /// The private key of the leaf.
    pub private_key: Vec<u8>,
}

/// Whether rustls accepts `key` as the signing key of a single-certificate
/// server configuration.
pub uninterp spec fn signing_key_supported(key: Seq<u8>) -> bool;

/// The application protocols that a server configuration offers, in order.
pub uninterp spec fn server_alpn(config: TlsServerConfig) -> Seq<Seq<u8>>;

/// Whether a server configuration asks clients for a certificate.
pub uninterp spec fn server_offers_client_auth(config: TlsServerConfig) -> bool;

/// The certificate chain that a single-certificate server configuration
/// presents, DER-encoded, leaf first.
pub uninterp spec fn server_cert_chain(config: TlsServerConfig) -> Seq<Seq<u8>>;

/// The DER-encoded private key from which a single-certificate server
/// configuration made the key it signs with.
pub uninterp spec fn server_signing_key(config: TlsServerConfig) -> Seq<u8>;

/// Relies on rustls' `ServerConfig` builder with safe defaults,
/// `with_no_client_auth` (a verifier that offers no client authentication)
/// and `with_single_cert`, which fails exactly when the key is not a
/// supported RSA, ECDSA or Ed25519 private key, and otherwise serves the chain
/// as given with its matching private key, with no application protocols.
#[verifier::external_body]
fn single_cert_server_config(certificate: &Certificate) -> (r: Result<TlsServerConfig, rustls::Error>)
    ensures
        r.is_ok() == signing_key_supported(certificate.private_key@),
        r matches Ok(c) ==> server_alpn(c) == Seq::<Seq<u8>>::empty() && !server_offers_client_auth(c)
            && server_cert_chain(c) == certificate.certificates@.map_values(|b: Vec<u8>| b@)
            && server_signing_key(c) == certificate.private_key@,
{
    let chain = certificate.certificates.iter().map(|c| rustls::Certificate(c.clone())).collect();
    TlsServerConfig::builder()
        .with_safe_defaults()
        .with_no_client_auth()
        .with_single_cert(chain, rustls::PrivateKey(certificate.private_key.clone()))
}

/// Relies on the `alpn_protocols` field of `rustls::ServerConfig`; no other
/// setting changes.
#[verifier::external_body]
fn set_server_alpn(config: &mut TlsServerConfig, protocols: Vec<Vec<u8>>)
    ensures
        server_alpn(*final(config)) == protocols@.map_values(|p: Vec<u8>| p@),
        server_offers_client_auth(*final(config)) == server_offers_client_auth(*old(config)),
        server_cert_chain(*final(config)) == server_cert_chain(*old(config)),
        server_signing_key(*final(config)) == server_signing_key(*old(config)),
{
    config.alpn_protocols = protocols;
}

/// Whether `certificate` can configure a server.
pub fn certificate_is_usable(certificate: &Certificate) -> (r: bool)
    ensures
        r == signing_key_supported(certificate.private_key@),
{
    single_cert_server_config(certificate).is_ok()
}

/// The default server TLS configuration for `certificate`: no client
/// authentication, the certificate's chain and private key, and the
/// WebTransport protocol identifier as the only application protocol.
pub fn server_tls_config(certificate: &Certificate) -> (r: TlsServerConfig)
    requires
        signing_key_supported(certificate.private_key@),
    ensures
        server_alpn(r) == alpn_list_spec(),
        !server_offers_client_auth(r),
        server_cert_chain(r) == certificate.certificates@.map_values(|b: Vec<u8>| b@),
        server_signing_key(r) == certificate.private_key@,
{
    let mut config = single_cert_server_config(certificate).unwrap();
    set_server_alpn(&mut config, alpn_protocols());
    config
}

/// The application protocols that a client configuration offers, in order.
pub uninterp spec fn client_alpn(config: TlsClientConfig) -> Seq<Seq<u8>>;

/// The certificates of the trust anchors that a client configuration
/// verifies servers against, DER-encoded, in order.
pub uninterp spec fn client_trust_roots(config: TlsClientConfig) -> Seq<Seq<u8>>;

/// Whether a client configuration writes its key material to the file that
/// `SSLKEYLOGFILE` names.
pub uninterp spec fn client_key_log_file(config: TlsClientConfig) -> bool;

/// Whether a client configuration may present a certificate to servers.
pub uninterp spec fn client_offers_certificate(config: TlsClientConfig) -> bool;

/// The certificates of the trust anchors that `store` holds, DER-encoded, in
/// the order they were added.
pub uninterp spec fn trust_anchor_certs(store: rustls::RootCertStore) -> Seq<Seq<u8>>;

/// Relies on rustls' `ClientConfig` builder with safe defaults (which cannot
/// fail), `with_root_certificates`, which verifies servers against `roots`,
/// and `with_no_client_auth`, whose certificate resolver never returns a
/// certificate, and which sets no application protocols and no key log.
#[verifier::external_body]
fn root_store_client_config(roots: rustls::RootCertStore) -> (r: TlsClientConfig)
    ensures
        client_trust_roots(r) == trust_anchor_certs(roots),
        client_alpn(r) == Seq::<Seq<u8>>::empty(),
        !client_key_log_file(r),
        !client_offers_certificate(r),
{
    TlsClientConfig::builder().with_safe_defaults().with_root_certificates(roots).with_no_client_auth()
}

/// Relies on the `alpn_protocols` field of `rustls::ClientConfig`; no other
/// setting changes.
#[verifier::external_body]
fn set_client_alpn(config: &mut TlsClientConfig, protocols: Vec<Vec<u8>>)
    ensures
        client_alpn(*final(config)) == protocols@.map_values(|p: Vec<u8>| p@),
        client_trust_roots(*final(config)) == client_trust_roots(*old(config)),
        client_key_log_file(*final(config)) == client_key_log_file(*old(config)),
        client_offers_certificate(*final(config)) == client_offers_certificate(*old(config)),
{
    config.alpn_protocols = protocols;
}

/// The default client TLS configuration trusting `roots`, presenting no
/// certificate, with the WebTransport protocol identifier as the only
/// application protocol.
pub fn client_tls_config(roots: rustls::RootCertStore) -> (r: TlsClientConfig)
    ensures
        client_trust_roots(r) == trust_anchor_certs(roots),
        client_alpn(r) == alpn_list_spec(),
        !client_key_log_file(r),
        !client_offers_certificate(r),
{
    let mut config = root_store_client_config(roots);
    set_client_alpn(&mut config, alpn_protocols());
    config
}

/// Relies on the `key_log` field of `rustls::ClientConfig` and on
/// `rustls::KeyLogFile::new`, which writes key material to the file that
/// `SSLKEYLOGFILE` names, if any; no other setting changes.
#[verifier::external_body]
pub(crate) fn set_key_log_file(config: &mut TlsClientConfig)
    ensures
        client_key_log_file(*final(config)),
        client_alpn(*final(config)) == client_alpn(*old(config)),
        client_trust_roots(*final(config)) == client_trust_roots(*old(config)),
        client_offers_certificate(*final(config)) == client_offers_certificate(*old(config)),
{
    config.key_log = std::sync::Arc::new(rustls::KeyLogFile::new());
}

/// Relies on `rustls::RootCertStore::empty`: a store with no anchors.
#[verifier::external_body]
fn empty_root_store() -> (r: rustls::RootCertStore)
    ensures
        trust_anchor_certs(r) == Seq::<Seq<u8>>::empty(),
{
    rustls::RootCertStore::empty()
}

/// Whether rustls parses `der` as a trust anchor.
pub uninterp spec fn parses_as_trust_anchor(der: Seq<u8>) -> bool;

/// The certificates of `certs` that parse as trust anchors, in order.
pub open spec fn accepted_roots(certs: Seq<Vec<u8>>) -> Seq<Seq<u8>>
    decreases certs.len(),
{
    if certs.len() == 0 {
        Seq::empty()
    } else {
        let rest = accepted_roots(certs.skip(1));
        if parses_as_trust_anchor(certs[0]@) {
            seq![certs[0]@] + rest
        } else {
            rest
        }
    }
}

/// Relies on `rustls::RootCertStore::add`: it parses `der` as a trust anchor,
/// appends it and succeeds, or fails and leaves the store as it was.
#[verifier::external_body]
fn add_root(store: &mut rustls::RootCertStore, der: Vec<u8>) -> (r: bool)
    ensures
        r == parses_as_trust_anchor(der@),
        r ==> trust_anchor_certs(*final(store)) == trust_anchor_certs(*old(store)).push(der@),
        !r ==> *final(store) == *old(store),
{
    store.add(&rustls::Certificate(der)).is_ok()
}

/// The trust store made from what loading the platform's certificates gave:
/// every certificate that parses as a trust anchor is added, in order, and the
/// others are skipped; when loading failed the store stays empty.
pub fn native_cert_store(loaded: Result<Vec<Vec<u8>>, std::io::Error>) -> (r: rustls::RootCertStore)
    ensures
        trust_anchor_certs(r) == match loaded {
            Ok(certs) => accepted_roots(certs@),
            Err(_) => Seq::<Seq<u8>>::empty(),
        },
{
    let mut store = empty_root_store();
    match loaded {
        Ok(certs) => {
            let ghost all = certs@;
            let mut rest = certs;
            while rest.len() > 0
                invariant
                    trust_anchor_certs(store) + accepted_roots(rest@) == accepted_roots(all),
                decreases rest.len(),
            {
                let ghost before = rest@;
                let ghost kept = trust_anchor_certs(store);
                let der = rest.remove(0);
                assert(rest@ == before.skip(1));
                let added = add_root(&mut store, der);
                if added {
                    assert(kept.push(before[0]@) + accepted_roots(rest@) =~= kept + (seq![before[0]@]
                        + accepted_roots(rest@)));
                }
            }
            assert(trust_anchor_certs(store) + accepted_roots(rest@) =~= trust_anchor_certs(store));
        },
        Err(_) => {},
    }
    store
}

} // verus!
