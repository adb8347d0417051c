use vstd::prelude::*;
use std::sync::Arc;
use rustls::pki_types::{CertificateDer, PrivateKeyDer, PrivatePkcs8KeyDer};
use rustls::server::WebPkiClientVerifier;
use rustls::{ClientConfig, RootCertStore, ServerConfig};
use crate::error::StartupError;

verus! {

#[verifier::external_type_specification]
#[verifier::external_body]
pub struct ExRootCertStore(RootCertStore);

#[verifier::external_type_specification]
#[verifier::external_body]
pub struct ExServerConfig(ServerConfig);

#[verifier::external_type_specification]
#[verifier::external_body]
pub struct ExClientConfig(ClientConfig);

/// The DER bytes of the certificates in a PEM text, in order, or `None` where
/// a PEM section cannot be read.
pub uninterp spec fn pem_certs_of(pem: Seq<u8>) -> Option<Seq<Seq<u8>>>;

/// The first PKCS#8 private key in a PEM text: `Some(None)` where there is
/// none, `None` where a PEM section before it cannot be read.
pub uninterp spec fn pem_first_pkcs8_of(pem: Seq<u8>) -> Option<Option<Seq<u8>>>;

/// The trust anchors that a root store holds, in the order they were added.
pub uninterp spec fn roots_of(store: RootCertStore) -> Seq<Seq<u8>>;

/// The trust anchor that a DER certificate gives, or `None` where it does not
/// parse as one; it depends on the bytes alone.
pub uninterp spec fn anchor_of(der: Seq<u8>) -> Option<Seq<u8>>;

/// The anchors that a sequence of certificates gives, in order, skipping the
/// certificates that give none.
pub open spec fn anchors_of(certs: Seq<Seq<u8>>) -> Seq<Seq<u8>>
    decreases certs.len(),
{
    if certs.len() == 0 {
        Seq::empty()
    } else {
        match anchor_of(certs.last()) {
            Some(a) => anchors_of(certs.drop_last()).push(a),
            None => anchors_of(certs.drop_last()),
        }
    }
}

/// Whether some certificate of `certs` gives a trust anchor.
pub open spec fn has_anchor(certs: Seq<Seq<u8>>) -> bool {
    exists|i: int| 0 <= i < certs.len() && (#[trigger] anchor_of(certs[i])) is Some
}

/// Certificates give no anchor exactly when none of them parses as one.
proof fn lemma_anchors_empty(certs: Seq<Seq<u8>>)
    ensures
        (anchors_of(certs).len() == 0) == !has_anchor(certs),
    decreases certs.len(),
{
    if certs.len() > 0 {
        let rest = certs.drop_last();
        lemma_anchors_empty(rest);
        if anchor_of(certs.last()) is Some {
            assert(anchor_of(certs[certs.len() - 1]) is Some);
        } else {
            if has_anchor(certs) {
                let i = choose|i: int| 0 <= i < certs.len() && (#[trigger] anchor_of(certs[i])) is Some;
                assert(i < rest.len());
                assert(rest[i] == certs[i]);
                assert(has_anchor(rest));
            }
            if has_anchor(rest) {
                let i = choose|i: int| 0 <= i < rest.len() && (#[trigger] anchor_of(rest[i])) is Some;
                assert(certs[i] == rest[i]);
            }
        }
    }
}

/// Relies on `rustls_pemfile::certs`: it yields each CERTIFICATE section of the
/// text as DER, skips other sections, and stops on the first unreadable one.
#[verifier::external_body]
fn pem_certificates(pem: &[u8]) -> (r: Result<Vec<Vec<u8>>, ()>)
    ensures
        match r {
            Ok(v) => pem_certs_of(pem@) == Some(v@.map_values(|c: Vec<u8>| c@)),
            Err(_) => pem_certs_of(pem@) is None,
        },
{
    let mut rd: &[u8] = pem;
    rustls_pemfile::certs(&mut rd).map(|c| c.map(|d| d.as_ref().to_vec()).map_err(|_| ())).collect()
}

/// Relies on `rustls_pemfile::pkcs8_private_keys`: its first item is the first
/// PKCS#8 key of the text, or the error that stopped the reading.
#[verifier::external_body]
fn pem_first_pkcs8_key(pem: &[u8]) -> (r: Result<Option<Vec<u8>>, ()>)
    ensures
        match r {
            Ok(Some(k)) => pem_first_pkcs8_of(pem@) == Some(Some(k@)),
            Ok(None) => pem_first_pkcs8_of(pem@) == Some(None::<Seq<u8>>),
            Err(_) => pem_first_pkcs8_of(pem@) is None,
        },
{
    let mut rd: &[u8] = pem;
    let first = rustls_pemfile::pkcs8_private_keys(&mut rd).next();
    match first {
        None => Ok(None),
        Some(Ok(k)) => Ok(Some(k.secret_pkcs8_der().to_vec())),
        Some(Err(_)) => Err(()),
    }
}

/// Relies on `RootCertStore::empty`: a store without anchors.
#[verifier::external_body]
fn empty_root_store() -> (r: RootCertStore)
    ensures
        roots_of(r).len() == 0,
{
    RootCertStore::empty()
}

/// Relies on `RootCertStore::add_parsable_certificates`: in order, it appends
/// the anchor of each certificate that webpki's `anchor_from_trusted_cert`
/// parses, skips the others, and returns how many it added and skipped.
#[verifier::external_body]
fn add_parsable_certificates(store: &mut RootCertStore, certs: Vec<Vec<u8>>) -> (r: (usize, usize))
    ensures
        roots_of(*final(store)) == roots_of(*old(store)) + anchors_of(certs@.map_values(|c: Vec<u8>| c@)),
        r.0 == anchors_of(certs@.map_values(|c: Vec<u8>| c@)).len(),
        r.0 + r.1 == certs@.len(),
        forall|i: int| 0 <= i < certs@.len() && (#[trigger] anchor_of(certs@[i]@)) is Some
            ==> roots_of(*final(store)).contains(anchor_of(certs@[i]@)->Some_0),
{
    store.add_parsable_certificates(certs.into_iter().map(CertificateDer::from))
}

/// Relies on `RootCertStore::is_empty`: true when the store holds no anchor.
#[verifier::external_body]
fn root_store_is_empty(store: &RootCertStore) -> (r: bool)
    ensures
        r == (roots_of(*store).len() == 0),
{
    store.is_empty()
}

/// Relies on `WebPkiClientVerifier::builder(..).build()` and on
/// `ServerConfig::builder().with_client_cert_verifier(..).with_single_cert(..)`:
/// a server context that demands a client certificate chaining to `roots`
/// and presents `chain` with the PKCS#8 `key`; `alpn` is stored as given.
/// Either builder may refuse its input, which gives `Err`.
#[verifier::external_body]
fn server_config_from(roots: RootCertStore, chain: Vec<Vec<u8>>, key: Vec<u8>, alpn: Vec<Vec<u8>>) -> (r: Result<ServerConfig, ()>)
{
    let verifier = WebPkiClientVerifier::builder(Arc::new(roots)).build().map_err(|_| ())?;
    let chain: Vec<CertificateDer<'static>> = chain.into_iter().map(CertificateDer::from).collect();
    let key = PrivateKeyDer::Pkcs8(PrivatePkcs8KeyDer::from(key));
    let mut config = ServerConfig::builder().with_client_cert_verifier(verifier).with_single_cert(chain, key).map_err(|_| ())?;
    config.alpn_protocols = alpn;
    Ok(config)
}

/// Relies on `ClientConfig::builder().with_root_certificates(..).with_client_auth_cert(..)`:
/// a client context that validates the server against `roots` and presents
/// `chain` with the PKCS#8 `key`; `alpn` is stored as given. The builder may
/// refuse the chain or key, which gives `Err`.
#[verifier::external_body]
fn client_config_from(roots: RootCertStore, chain: Vec<Vec<u8>>, key: Vec<u8>, alpn: Vec<Vec<u8>>) -> (r: Result<ClientConfig, ()>)
{
    let chain: Vec<CertificateDer<'static>> = chain.into_iter().map(CertificateDer::from).collect();
    let key = PrivateKeyDer::Pkcs8(PrivatePkcs8KeyDer::from(key));
    let mut config = ClientConfig::builder().with_root_certificates(roots).with_client_auth_cert(chain, key).map_err(|_| ())?;
    config.alpn_protocols = alpn;
    Ok(config)
}

/// The contents of the five trust-material files.
#[derive(Debug, Clone)]
pub struct TrustMaterial {
    pub ca: Vec<u8>,
    pub server_cert: Vec<u8>,
    pub server_key: Vec<u8>,
    pub client_cert: Vec<u8>,
    pub client_key: Vec<u8>,
}

/// The protocol identifier `h2` as bytes.
pub open spec fn h2() -> Seq<u8> {
    seq![104u8, 50u8]
}

/// The application-layer protocols both contexts offer: `h2` alone.
pub fn alpn_protocols() -> (r: Vec<Vec<u8>>)
    ensures
        r@.map_values(|p: Vec<u8>| p@) == seq![h2()],
{
    let mut p: Vec<u8> = Vec::new();
    p.push(104u8);
    p.push(50u8);
    assert(p@ =~= h2());
    let mut r: Vec<Vec<u8>> = Vec::new();
    r.push(p);
    assert(r@.map_values(|p: Vec<u8>| p@)[0] == h2());
    assert(r@.map_values(|p: Vec<u8>| p@) =~= seq![h2()]);
    r
}

/// What reading a certificate file gives: its certificates, possibly none.
pub open spec fn certs_result(pem: Seq<u8>) -> Result<Seq<Seq<u8>>, StartupError> {
    match pem_certs_of(pem) {
        None => Err(StartupError::Unparseable),
        Some(c) => Ok(c),
    }
}

/// What reading a certificate chain gives: at least one certificate, leaf first.
pub open spec fn chain_result(pem: Seq<u8>) -> Result<Seq<Seq<u8>>, StartupError> {
    match pem_certs_of(pem) {
        None => Err(StartupError::Unparseable),
        Some(c) => if c.len() == 0 {
            Err(StartupError::MissingCertificate)
        } else {
            Ok(c)
        },
    }
}

/// What reading a key file gives: its first PKCS#8 key.
pub open spec fn key_result(pem: Seq<u8>) -> Result<Seq<u8>, StartupError> {
    match pem_first_pkcs8_of(pem) {
        None => Err(StartupError::Unparseable),
        Some(None) => Err(StartupError::MissingKey),
        Some(Some(k)) => Ok(k),
    }
}

/// What a CA file gives: it parses, and at least one of its certificates
/// parses as a trust anchor.
pub open spec fn ca_check(pem: Seq<u8>) -> Result<(), StartupError> {
    match pem_certs_of(pem) {
        None => Err(StartupError::Unparseable),
        Some(c) => if has_anchor(c) {
            Ok(())
        } else {
            Err(StartupError::EmptyTrustStore)
        },
    }
}

/// The checks on one side's material, in the order they are made: the
/// certificate chain, the key, then the CA file.
pub open spec fn material_check(cert: Seq<u8>, key: Seq<u8>, ca: Seq<u8>) -> Result<(), StartupError> {
    if chain_result(cert) is Err {
        Err(chain_result(cert)->Err_0)
    } else if key_result(key) is Err {
        Err(key_result(key)->Err_0)
    } else {
        ca_check(ca)
    }
}

/// Parses the certificates of a PEM text, leaf first where it is a chain.
pub fn cert_reader(pem: &[u8]) -> (r: Result<Vec<Vec<u8>>, StartupError>)
    ensures
        match r {
            Ok(v) => certs_result(pem@) == Ok::<Seq<Seq<u8>>, StartupError>(v@.map_values(|c: Vec<u8>| c@)),
            Err(e) => certs_result(pem@) == Err::<Seq<Seq<u8>>, StartupError>(e),
        },
{
    match pem_certificates(pem) {
        Ok(v) => Ok(v),
        Err(_) => Err(StartupError::Unparseable),
    }
}

/// Finds the first PKCS#8 private key of a PEM text.
pub fn privkey_reader(pem: &[u8]) -> (r: Result<Vec<u8>, StartupError>)
    ensures
        match r {
            Ok(k) => key_result(pem@) == Ok::<Seq<u8>, StartupError>(k@),
            Err(e) => key_result(pem@) == Err::<Seq<u8>, StartupError>(e),
        },
{
    match pem_first_pkcs8_key(pem) {
        Ok(Some(k)) => Ok(k),
        Ok(None) => Err(StartupError::MissingKey),
        Err(_) => Err(StartupError::Unparseable),
    }
}

/// Builds the trust store from a CA file: the anchors of the certificates
/// that parse as one, in order. It fails with `EmptyTrustStore` where none
/// does, a file without certificates included.
pub fn load_root_store(pem: &[u8]) -> (r: Result<RootCertStore, StartupError>)
    ensures
        match r {
            Ok(s) => ca_check(pem@) is Ok && roots_of(s) == anchors_of(pem_certs_of(pem@)->Some_0),
            Err(e) => ca_check(pem@) == Err::<(), StartupError>(e),
        },
{
    let certs = cert_reader(pem)?;
    let ghost c = certs@.map_values(|c: Vec<u8>| c@);
    let mut store = empty_root_store();
    let _counts = add_parsable_certificates(&mut store, certs);
    proof {
        assert(roots_of(store) =~= anchors_of(c));
        lemma_anchors_empty(c);
    }
    if root_store_is_empty(&store) {
        return Err(StartupError::EmptyTrustStore);
    }
    Ok(store)
}

/// Builds the context that serves inbound clients: the server chain and key,
/// a verifier that accepts any client certificate signed by the CA, and `h2`.
pub fn build_server_config(m: &TrustMaterial) -> (r: Result<ServerConfig, StartupError>)
    ensures
        material_check(m.server_cert@, m.server_key@, m.ca@) matches Err(e) ==> r == Err::<ServerConfig, StartupError>(e),
        r is Ok ==> material_check(m.server_cert@, m.server_key@, m.ca@) is Ok,
        r matches Err(e) ==> material_check(m.server_cert@, m.server_key@, m.ca@) == Err::<(), StartupError>(e)
            || (material_check(m.server_cert@, m.server_key@, m.ca@) is Ok && e == StartupError::Rejected),
{
    let chain = cert_reader(m.server_cert.as_slice())?;
    if chain.len() == 0 {
        return Err(StartupError::MissingCertificate);
    }
    let key = privkey_reader(m.server_key.as_slice())?;
    let roots = load_root_store(m.ca.as_slice())?;
    match server_config_from(roots, chain, key, alpn_protocols()) {
        Ok(c) => Ok(c),
        Err(_) => Err(StartupError::Rejected),
    }
}

/// Builds the context that dials the upstream: the client chain and key, the
/// CA as the only root of trust for the upstream's certificate, and `h2`.
pub fn build_client_config(m: &TrustMaterial) -> (r: Result<ClientConfig, StartupError>)
    ensures
        material_check(m.client_cert@, m.client_key@, m.ca@) matches Err(e) ==> r == Err::<ClientConfig, StartupError>(e),
        r is Ok ==> material_check(m.client_cert@, m.client_key@, m.ca@) is Ok,
        r matches Err(e) ==> material_check(m.client_cert@, m.client_key@, m.ca@) == Err::<(), StartupError>(e)
            || (material_check(m.client_cert@, m.client_key@, m.ca@) is Ok && e == StartupError::Rejected),
{
    let chain = cert_reader(m.client_cert.as_slice())?;
    if chain.len() == 0 {
        return Err(StartupError::MissingCertificate);
    }
    let key = privkey_reader(m.client_key.as_slice())?;
    let roots = load_root_store(m.ca.as_slice())?;
    match client_config_from(roots, chain, key, alpn_protocols()) {
        Ok(c) => Ok(c),
        Err(_) => Err(StartupError::Rejected),
    }
}

} // verus!
