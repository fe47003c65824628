//! Where the TLS layer meets rustls, tokio-rustls, rustls-pemfile, rcgen and
//! webpki-roots. Nothing in this file is proved: each item says what the
//! library takes on trust of the code outside, and the rest of the layer is
//! proved from that.
use std::sync::Arc;

use rustls::client::danger::{HandshakeSignatureValid, ServerCertVerified, ServerCertVerifier};
use rustls::client::{ClientConfig, WebPkiServerVerifier};
use rustls::pki_types::{CertificateDer, PrivateKeyDer, ServerName, UnixTime};
use rustls::server::{ClientHello, ServerConfig};
use rustls::sign::CertifiedKey;
use rustls::{DigitallySignedStruct, RootCertStore, SignatureScheme};
use rustls_pemfile::Item;
use tokio_rustls::rustls;
use tokio_rustls::{TlsAcceptor, TlsConnector};
use vstd::prelude::*;

use crate::text::views;
use crate::tls::pem::{KeyKind, PemItem, PemKind, PrivateKey};
use crate::tls::store::AlwaysResolvesChain;
use crate::tls::verify::Verifier;

verus! {

// Types of rustls and tokio-rustls. They pass through the library unopened.

/// `rustls::pki_types::ServerName`: a parsed DNS name or IP address.
#[verifier::external_type_specification]
#[verifier::external_body]
pub struct ExServerName<'a>(ServerName<'a>);

/// `rustls::pki_types::CertificateDer`: a certificate in DER.
#[verifier::external_type_specification]
#[verifier::external_body]
pub struct ExCertificateDer<'a>(CertificateDer<'a>);

/// `rustls::pki_types::UnixTime`: a point in time.
#[verifier::external_type_specification]
#[verifier::external_body]
pub struct ExUnixTime(UnixTime);

/// `rustls::client::danger::ServerCertVerified`: the token that a verifier
/// hands back for a certificate that it takes.
#[verifier::external_type_specification]
#[verifier::external_body]
pub struct ExServerCertVerified(ServerCertVerified);

/// `rustls::client::danger::HandshakeSignatureValid`: the token that a
/// verifier hands back for a signature that it takes.
#[verifier::external_type_specification]
#[verifier::external_body]
pub struct ExHandshakeSignatureValid(HandshakeSignatureValid);

/// `rustls::DigitallySignedStruct`: a signature from a handshake.
#[verifier::external_type_specification]
#[verifier::external_body]
pub struct ExDigitallySignedStruct(DigitallySignedStruct);

/// `rustls::SignatureScheme`: a signature scheme of the TLS registry.
#[verifier::external_type_specification]
#[verifier::external_body]
pub struct ExSignatureScheme(SignatureScheme);

/// `rustls::Error`.
#[verifier::external_type_specification]
#[verifier::external_body]
pub struct ExRustlsError(rustls::Error);

/// `rustls::RootCertStore`: a set of trust anchors.
#[verifier::external_type_specification]
#[verifier::external_body]
pub struct ExRootCertStore(RootCertStore);

/// `rustls::ClientConfig`.
#[verifier::external_type_specification]
#[verifier::external_body]
pub struct ExClientConfig(ClientConfig);

/// `rustls::client::WebPkiServerVerifier`: the verifier that checks a
/// certificate chain against trust anchors.
#[verifier::external_type_specification]
#[verifier::external_body]
pub struct ExWebPkiServerVerifier(WebPkiServerVerifier);

/// `tokio_rustls::TlsConnector`: a client configuration, ready to run
/// handshakes.
#[verifier::external_type_specification]
#[verifier::external_body]
pub struct ExTlsConnector(TlsConnector);

/// `tokio_rustls::TlsAcceptor`: a server configuration, ready to run
/// handshakes.
#[verifier::external_type_specification]
#[verifier::external_body]
pub struct ExTlsAcceptor(TlsAcceptor);

/// `rustls::sign::CertifiedKey`: a certificate chain with its signing key.
#[verifier::external_type_specification]
#[verifier::external_body]
pub struct ExCertifiedKey(CertifiedKey);

/// `rustls::server::ClientHello`: what a client sent first.
#[verifier::external_type_specification]
#[verifier::external_body]
pub struct ExClientHello<'a>(ClientHello<'a>);

/// Whether `ServerName::try_from` takes the text for a server name: a DNS
/// name or an IP address.
pub uninterp spec fn valid_server_name(sni: Seq<char>) -> bool;

/// The server name that `ServerName::try_from` makes of the text, where it
/// takes the text.
pub uninterp spec fn parsed_name(sni: Seq<char>) -> ServerName<'static>;

/// `ServerName::try_from` on an owned string: the name that the text parses
/// to, or nothing where it is neither a DNS name nor an IP address.
#[verifier::external_body]
pub(crate) fn server_name(sni: String) -> (r: Option<ServerName<'static>>)
    ensures
        r.is_some() == valid_server_name(sni@),
        r matches Some(name) ==> name == parsed_name(sni@),
{
    match ServerName::try_from(sni) {
        Ok(name) => Some(name),
        Err(_) => None,
    }
}

/// `Clone::clone` of a `ServerName`: the copy equals what was copied.
pub assume_specification<'a>[ <ServerName<'a> as Clone>::clone ](name: &ServerName<'a>) -> (r:
    ServerName<'a>)
    ensures
        r == *name,
;

/// `Clone::clone` of a `TlsConnector`: the copy shares the configuration
/// and stands for the same connector.
pub assume_specification[ <TlsConnector as Clone>::clone ](cc: &TlsConnector) -> (r: TlsConnector)
    ensures
        r == *cc,
;

/// `Clone::clone` of a `TlsAcceptor`: the copy shares the configuration
/// and stands for the same acceptor.
pub assume_specification[ <TlsAcceptor as Clone>::clone ](ac: &TlsAcceptor) -> (r: TlsAcceptor)
    ensures
        r == *ac,
;

/// Whether the store holds the root certificates that Firefox trusts, as
/// `webpki_roots::TLS_SERVER_ROOTS` lists them, and no others.
pub uninterp spec fn firefox_store(store: RootCertStore) -> bool;

/// The root certificates that Firefox trusts, as `webpki_roots` ships them,
/// in a `RootCertStore`.
#[verifier::external_body]
pub fn firefox_roots() -> (r: RootCertStore)
    ensures
        firefox_store(r),
{
    RootCertStore { roots: Vec::from(webpki_roots::TLS_SERVER_ROOTS) }
}

/// Whether the configuration checks a server's certificate against the
/// trust anchors in `roots`, as `with_root_certificates` sets it up.
pub uninterp spec fn config_trusts(conf: ClientConfig, roots: RootCertStore) -> bool;

/// `ClientConfig::builder` with a verifier over `roots` and no client
/// certificate: the configuration checks certificates against those
/// roots. The builder takes the process's default crypto provider, so the
/// rest of the configuration is not stated.
#[verifier::external_body]
pub(crate) fn config_with_roots(roots: RootCertStore) -> (r: ClientConfig)
    ensures
        config_trusts(r, roots),
{
    ClientConfig::builder().with_root_certificates(roots).with_no_client_auth()
}

/// Whether the configuration leaves the check of a server's certificate to
/// `verifier`, as `with_custom_certificate_verifier` sets it up.
pub uninterp spec fn config_checks_with(conf: ClientConfig, verifier: Verifier) -> bool;

/// `ClientConfig::builder` with the given verifier as its custom certificate
/// verifier, and no client certificate: the configuration checks
/// certificates with that verifier. The builder takes the process's default
/// crypto provider, so the rest of the configuration is not stated.
#[verifier::external_body]
pub(crate) fn config_with_verifier(verifier: Verifier) -> (r: ClientConfig)
    ensures
        config_checks_with(r, verifier),
{
    let verifier: Arc<dyn ServerCertVerifier> = match verifier {
        Verifier::Insecure(verifier) => verifier,
        Verifier::Firefox(verifier) => verifier,
    };
    ClientConfig::builder().dangerous().with_custom_certificate_verifier(
        verifier,
    ).with_no_client_auth()
}

/// The connector that `TlsConnector::from` makes of a configuration whose
/// `enable_early_data` is `early_data` and whose `alpn_protocols` are `alpn`,
/// and which is `conf` in all else.
pub uninterp spec fn connector_of(
    conf: ClientConfig,
    early_data: bool,
    alpn: Seq<Seq<u8>>,
) -> TlsConnector;

/// Sets `enable_early_data` and `alpn_protocols` of the configuration and
/// makes a `TlsConnector` of it. The result is the named one.
#[verifier::external_body]
pub(crate) fn connector(conf: ClientConfig, early_data: bool, alpn: Vec<Vec<u8>>) -> (r:
    TlsConnector)
    ensures
        r == connector_of(conf, early_data, views(alpn@)),
{
    let mut conf = conf;
    conf.enable_early_data = early_data;
    conf.alpn_protocols = alpn;
    Arc::new(conf).into()
}

/// Whether the verifier checks certificates against the trust anchors in
/// `roots`, as `WebPkiServerVerifier::builder` sets it up.
pub uninterp spec fn verifier_over(
    verifier: Arc<WebPkiServerVerifier>,
    roots: RootCertStore,
) -> bool;

/// `WebPkiServerVerifier::builder(..).build()` over `roots`: a verifier
/// that checks against those roots. It fails where the store is empty, and
/// only there, as no revocation lists are given; the store of the Firefox
/// roots is not empty.
#[verifier::external_body]
pub(crate) fn webpki_verifier(roots: RootCertStore) -> (r: Option<Arc<WebPkiServerVerifier>>)
    ensures
        r matches Some(verifier) ==> verifier_over(verifier, roots),
        firefox_store(roots) ==> r is Some,
{
    match WebPkiServerVerifier::builder(Arc::new(roots)).build() {
        Ok(verifier) => Some(verifier),
        Err(_) => None,
    }
}

/// `ServerCertVerified::assertion`.
#[verifier::external_body]
pub(crate) fn cert_verified() -> ServerCertVerified {
    ServerCertVerified::assertion()
}

/// `HandshakeSignatureValid::assertion`.
#[verifier::external_body]
pub(crate) fn signature_valid() -> HandshakeSignatureValid {
    HandshakeSignatureValid::assertion()
}

/// The signature scheme that `SignatureScheme::from` makes of a code point
/// of the TLS registry.
pub uninterp spec fn scheme_of(code: u16) -> SignatureScheme;

/// `SignatureScheme::from` a code point of the TLS registry. The result is
/// the named one.
#[verifier::external_body]
pub(crate) fn signature_scheme(code: u16) -> (r: SignatureScheme)
    ensures
        r == scheme_of(code),
{
    SignatureScheme::from(code)
}

/// What `rustls_pemfile::read_one` finds at the head of `input`: the kind
/// of the first section it knows, the decoded bytes of that section where
/// it is a certificate or a private key, and the input that follows the
/// section; nothing where no section is left or the text is malformed.
pub uninterp spec fn pem_read_one(input: Seq<u8>) -> Option<(PemKind, Seq<u8>, Seq<u8>)>;

/// `rustls_pemfile::read_one` on bytes in memory. The result is the named
/// one; an error counts as the end, and the bytes of a section that is
/// neither a certificate nor a private key are dropped. A section that was
/// read has been taken off the input, so what is left is shorter.
#[verifier::external_body]
pub(crate) fn read_one<'a>(input: &'a [u8]) -> (r: Option<(PemItem, &'a [u8])>)
    ensures
        match r {
            Some((item, rest)) => pem_read_one(input@) == Some((item.kind, item.der@, rest@))
                && rest@.len() < input@.len(),
            None => pem_read_one(input@) is None,
        },
{
    let mut rest = input;
    let (kind, der) = match rustls_pemfile::read_one(&mut rest) {
        Ok(Some(Item::X509Certificate(d))) => (PemKind::Certificate, d.to_vec()),
        Ok(Some(Item::Pkcs1Key(d))) => (PemKind::Pkcs1Key, d.secret_pkcs1_der().to_vec()),
        Ok(Some(Item::Pkcs8Key(d))) => (PemKind::Pkcs8Key, d.secret_pkcs8_der().to_vec()),
        Ok(Some(Item::Sec1Key(d))) => (PemKind::Sec1Key, d.secret_sec1_der().to_vec()),
        Ok(Some(_)) => (PemKind::Other, Vec::new()),
        _ => return None,
    };
    Some((PemItem { kind, der }, rest))
}

/// Whether the certificate in DER is one that
/// `rcgen::generate_simple_self_signed` makes for `name`: self-signed, with
/// `name` as its one subject alternative name.
pub uninterp spec fn generated_for(cert: Seq<u8>, name: Seq<char>) -> bool;

/// `rcgen::generate_simple_self_signed` for one name: the certificate in
/// DER and the key pair in PKCS#8, or nothing where generation failed. The
/// key is drawn at random, so of the bytes nothing is said but that the
/// certificate is for the name.
#[verifier::external_body]
pub(crate) fn self_signed(server_name: &str) -> (r: Option<(Vec<u8>, Vec<u8>)>)
    ensures
        r matches Some((cert, key)) ==> generated_for(cert@, server_name@),
{
    match rcgen::generate_simple_self_signed(vec![server_name.to_string()]) {
        Ok(made) => Some((made.cert.der().to_vec(), made.signing_key.serialize_der())),
        Err(_) => None,
    }
}

/// Whether `rustls::crypto::ring::sign::any_supported_type` takes the key:
/// whether it parses as an RSA, ECDSA or EdDSA key.
pub uninterp spec fn key_supported(kind: KeyKind, der: Seq<u8>) -> bool;

/// Whether the certified key holds the chain, the signing key that
/// `any_supported_type` parses out of the private key, and the OCSP
/// response.
pub uninterp spec fn certifies(
    certified: CertifiedKey,
    chain: Seq<Seq<u8>>,
    kind: KeyKind,
    der: Seq<u8>,
    ocsp: Option<Seq<u8>>,
) -> bool;

/// `any_supported_type` on the key, and a `CertifiedKey` of the chain, the
/// parsed key and the OCSP response, which it then holds. It fails where
/// the key does not parse.
#[verifier::external_body]
pub(crate) fn certified_key(
    cert: Vec<Vec<u8>>,
    key: &PrivateKey,
    ocsp: Option<Vec<u8>>,
) -> (r: Option<CertifiedKey>)
    ensures
        r.is_some() == key_supported(key.kind, key.der@),
        r matches Some(certified) ==> certifies(
            certified,
            views(cert@),
            key.kind,
            key.der@,
            match ocsp {
                Some(ocsp) => Some(ocsp@),
                None => None,
            },
        ),
{
    let der = match key.kind {
        KeyKind::Pkcs1 => PrivateKeyDer::Pkcs1(key.der.clone().into()),
        KeyKind::Pkcs8 => PrivateKeyDer::Pkcs8(key.der.clone().into()),
        KeyKind::Sec1 => PrivateKeyDer::Sec1(key.der.clone().into()),
    };
    match rustls::crypto::ring::sign::any_supported_type(&der) {
        Ok(key) => Some(
            CertifiedKey { cert: cert.into_iter().map(CertificateDer::from).collect(), key, ocsp },
        ),
        Err(_) => None,
    }
}

/// Whether `with_single_cert_with_ocsp` takes the chain with the key:
/// whether the key parses and is not found to belong to another certificate
/// than the first of the chain. The builder asks the crypto provider that
/// this library is built with, where the program has installed no other.
pub uninterp spec fn single_cert_accepted(
    chain: Seq<Seq<u8>>,
    kind: KeyKind,
    der: Seq<u8>,
) -> bool;

/// Whether the acceptor answers every handshake with the chain, the key
/// and, where there is one, the OCSP response.
pub uninterp spec fn answers_with(
    ac: TlsAcceptor,
    chain: Seq<Seq<u8>>,
    kind: KeyKind,
    der: Seq<u8>,
    ocsp: Option<Seq<u8>>,
) -> bool;

/// `ServerConfig::builder` without client authentication and with the one
/// chain, key and OCSP response for every handshake, as a `TlsAcceptor`,
/// which then answers with them; an empty response counts as none. It fails
/// where the key does not parse or does not belong to the first
/// certificate. The builder takes the process's default crypto provider.
#[verifier::external_body]
pub(crate) fn acceptor_with_single_cert(
    cert: Vec<Vec<u8>>,
    key: PrivateKey,
    ocsp: Vec<u8>,
) -> (r: Option<TlsAcceptor>)
    ensures
        r.is_some() == single_cert_accepted(views(cert@), key.kind, key.der@),
        r matches Some(ac) ==> answers_with(
            ac,
            views(cert@),
            key.kind,
            key.der@,
            if ocsp@.len() > 0 {
                Some(ocsp@)
            } else {
                None
            },
        ),
{
    let cert = cert.into_iter().map(CertificateDer::from).collect();
    let key = match key.kind {
        KeyKind::Pkcs1 => PrivateKeyDer::Pkcs1(key.der.into()),
        KeyKind::Pkcs8 => PrivateKeyDer::Pkcs8(key.der.into()),
        KeyKind::Sec1 => PrivateKeyDer::Sec1(key.der.into()),
    };
    let builder = ServerConfig::builder().with_no_client_auth();
    match builder.with_single_cert_with_ocsp(cert, key, ocsp) {
        Ok(conf) => Some(Arc::new(conf).into()),
        Err(_) => None,
    }
}

/// Whether the acceptor leaves the choice of its certificate to `resolver`.
pub uninterp spec fn resolves_with(ac: TlsAcceptor, resolver: Arc<AlwaysResolvesChain>) -> bool;

/// `ServerConfig::builder` without client authentication and with
/// `resolver` to pick the certificate, as a `TlsAcceptor`, which then asks
/// that resolver in every handshake.
#[verifier::external_body]
pub(crate) fn acceptor_with_resolver(resolver: Arc<AlwaysResolvesChain>) -> (r: TlsAcceptor)
    ensures
        resolves_with(r, resolver),
{
    Arc::new(ServerConfig::builder().with_no_client_auth().with_cert_resolver(resolver)).into()
}

} // verus!
