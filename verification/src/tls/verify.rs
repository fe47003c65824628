//! The certificate verifiers of the connecting side: one that skips every
//! check, and the one over the Firefox roots, each made once and shared.
use std::sync::Arc;

use rustls::client::danger::{HandshakeSignatureValid, ServerCertVerified, ServerCertVerifier};
use rustls::client::{ClientConfig, WebPkiServerVerifier};
use rustls::pki_types::{CertificateDer, ServerName, UnixTime};
use rustls::{DigitallySignedStruct, RootCertStore, SignatureScheme};
use tokio_rustls::rustls;
use vstd::prelude::*;

use crate::tls::boundary::{
    cert_verified, config_checks_with, config_trusts, firefox_roots, firefox_store, scheme_of,
    signature_scheme, signature_valid, verifier_over, webpki_verifier,
};
use crate::tls::TlsError;

verus! {

/// The signature schemes that `SkipVerify` announces, as code points of the
/// TLS registry, in the order in which it announces them.
pub open spec fn skip_verify_schemes() -> Seq<u16> {
    seq![
        0x0201u16,
        0x0203u16,
        0x0401u16,
        0x0403u16,
        0x0501u16,
        0x0503u16,
        0x0601u16,
        0x0603u16,
        0x0804u16,
        0x0805u16,
        0x0806u16,
        0x0807u16,
        0x0808u16,
    ]
}

/// A verifier that takes every certificate and every signature for good.
#[derive(Debug)]
pub struct SkipVerify {}

impl SkipVerify {
    /// The code points of the schemes that the verifier announces:
    /// RSA PKCS#1 and ECDSA with SHA-1, SHA-256, SHA-384 and SHA-512, RSA-PSS
    /// with SHA-256, SHA-384 and SHA-512, Ed25519 and Ed448.
    pub fn scheme_codes() -> (codes: Vec<u16>)
        ensures
            codes@ == skip_verify_schemes(),
    {
        let codes = vec![
            0x0201u16,
            0x0203u16,
            0x0401u16,
            0x0403u16,
            0x0501u16,
            0x0503u16,
            0x0601u16,
            0x0603u16,
            0x0804u16,
            0x0805u16,
            0x0806u16,
            0x0807u16,
            0x0808u16,
        ];
        assert(codes@ =~= skip_verify_schemes());
        codes
    }
}

impl ServerCertVerifier for SkipVerify {
    fn verify_server_cert(
        &self,
        _end_entity: &CertificateDer<'_>,
        _intermediates: &[CertificateDer<'_>],
        _server_name: &ServerName<'_>,
        _ocsp_response: &[u8],
        _now: UnixTime,
    ) -> (r: Result<ServerCertVerified, rustls::Error>)
        ensures
            r is Ok,
    {
        Ok(cert_verified())
    }

    fn verify_tls12_signature(
        &self,
        _message: &[u8],
        _cert: &CertificateDer<'_>,
        _dss: &DigitallySignedStruct,
    ) -> (r: Result<HandshakeSignatureValid, rustls::Error>)
        ensures
            r is Ok,
    {
        Ok(signature_valid())
    }

    fn verify_tls13_signature(
        &self,
        _message: &[u8],
        _cert: &CertificateDer<'_>,
        _dss: &DigitallySignedStruct,
    ) -> (r: Result<HandshakeSignatureValid, rustls::Error>)
        ensures
            r is Ok,
    {
        Ok(signature_valid())
    }

    fn supported_verify_schemes(&self) -> (schemes: Vec<SignatureScheme>)
        ensures
            schemes@ == skip_verify_schemes().map_values(|code: u16| scheme_of(code)),
    {
        let codes = SkipVerify::scheme_codes();
        let mut schemes: Vec<SignatureScheme> = Vec::new();
        let mut i: usize = 0;
        while i < codes.len()
            invariant
                i <= codes.len(),
                schemes.len() == i,
                forall|j: int| 0 <= j < i ==> schemes@[j] == scheme_of(codes@[j]),
            decreases codes.len() - i,
        {
            schemes.push(signature_scheme(codes[i]));
            i += 1;
        }
        assert(schemes@ =~= skip_verify_schemes().map_values(|code: u16| scheme_of(code)));
        schemes
    }
}

/// The verifiers that connectors made with `new_shared` hold in common:
/// one that skips every check, and one over the Firefox roots.
pub struct Verifiers {
    insecure: Arc<SkipVerify>,
    firefox: Arc<WebPkiServerVerifier>,
}

/// A verifier picked for a connector.
pub enum Verifier {
    /// Every certificate passes.
    Insecure(Arc<SkipVerify>),
    /// Certificates are checked against the Firefox roots.
    Firefox(Arc<WebPkiServerVerifier>),
}

/// How a connector checks the certificate of its server.
pub enum Checking {
    /// Against the trust anchors in a store of its own.
    Roots(RootCertStore),
    /// With a verifier.
    With(Verifier),
}

impl Checking {
    /// Whether every certificate passes.
    pub open spec fn accepts_any(self) -> bool {
        self matches Checking::With(Verifier::Insecure(_))
    }

    /// Whether this is how a connector with a verifier of its own checks:
    /// with one that skips every check where `insecure` is set, and against
    /// the Firefox roots where it is not.
    pub open spec fn is_own(self, insecure: bool) -> bool {
        if insecure {
            self matches Checking::With(Verifier::Insecure(_))
        } else {
            self matches Checking::Roots(roots) && firefox_store(roots)
        }
    }

    /// Whether a configuration is set up to check in this way.
    pub open spec fn set_up_in(self, conf: ClientConfig) -> bool {
        match self {
            Checking::Roots(roots) => config_trusts(conf, roots),
            Checking::With(verifier) => config_checks_with(conf, verifier),
        }
    }
}

impl Verifiers {
    /// The shared verifier that skips every check.
    pub closed spec fn insecure(&self) -> Arc<SkipVerify> {
        self.insecure
    }

    /// The shared verifier over the Firefox roots.
    pub closed spec fn firefox(&self) -> Arc<WebPkiServerVerifier> {
        self.firefox
    }

    /// Builds both verifiers, the checking one over the Firefox roots.
    pub fn new() -> (r: Result<Self, TlsError>)
        ensures
            r is Ok,
            r matches Ok(shared) ==> exists|roots: RootCertStore|
                firefox_store(roots) && #[trigger] verifier_over(shared.firefox(), roots),
    {
        let roots = firefox_roots();
        let ghost store = roots;
        let r = Self::from_built(webpki_verifier(roots));
        assert(r matches Ok(shared) ==> verifier_over(shared.firefox(), store));
        r
    }

    /// The shared verifiers, given what building the one over the Firefox
    /// roots came to.
    pub fn from_built(firefox: Option<Arc<WebPkiServerVerifier>>) -> (r: Result<Self, TlsError>)
        ensures
            match firefox {
                Some(v) => r is Ok && r->Ok_0.firefox() == v,
                None => r == Err::<Self, TlsError>(TlsError::Roots),
            },
    {
        match firefox {
            Some(firefox) => Ok(Verifiers { insecure: Arc::new(SkipVerify {  }), firefox }),
            None => Err(TlsError::Roots),
        }
    }
}

/// The shared verifier for a connector: the one that skips every check where
/// `insecure` is set, the one over the Firefox roots where it is not.
pub open spec fn shared_verifier(shared: &Verifiers, insecure: bool) -> Verifier {
    if insecure {
        Verifier::Insecure(shared.insecure())
    } else {
        Verifier::Firefox(shared.firefox())
    }
}

/// The shared verifier for a connector.
pub fn new_verifier(shared: &Verifiers, insecure: bool) -> (v: Verifier)
    ensures
        v == shared_verifier(shared, insecure),
{
    if insecure {
        Verifier::Insecure(Arc::clone(&shared.insecure))
    } else {
        Verifier::Firefox(Arc::clone(&shared.firefox))
    }
}

} // verus!
