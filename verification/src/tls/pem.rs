//! Certificates and private keys out of the contents of a file: PEM
//! sections where there are any, else the whole file as DER.
use vstd::prelude::*;
use vstd::slice::slice_to_vec;

use crate::text::views;
use crate::tls::boundary::{pem_read_one, read_one};

verus! {

/// What a section of a PEM file holds.
#[derive(Debug, Clone, Copy, PartialEq, Eq, Structural)]
pub enum PemKind {
    /// An X.509 certificate.
    Certificate,
    /// An RSA private key in PKCS#1.
    Pkcs1Key,
    /// A private key in PKCS#8.
    Pkcs8Key,
    /// An elliptic-curve private key in SEC1.
    Sec1Key,
    /// Anything else.
    Other,
}

/// One decoded section of a PEM file.
#[derive(Debug)]
pub struct PemItem {
    pub kind: PemKind,
    pub der: Vec<u8>,
}

/// The encoding of a private key.
#[derive(Debug, Clone, Copy, PartialEq, Eq, Structural)]
pub enum KeyKind {
    Pkcs1,
    Pkcs8,
    Sec1,
}

/// A private key in DER.
#[derive(Debug)]
pub struct PrivateKey {
    pub kind: KeyKind,
    pub der: Vec<u8>,
}

/// The certificates among the PEM sections of `input`, in their order, up to
/// the end or the first malformed section.
pub open spec fn pem_certificates(input: Seq<u8>) -> Seq<Seq<u8>>
    decreases input.len(),
{
    match pem_read_one(input) {
        Some((kind, der, rest)) => if rest.len() < input.len() {
            if kind == PemKind::Certificate {
                seq![der] + pem_certificates(rest)
            } else {
                pem_certificates(rest)
            }
        } else {
            Seq::empty()
        },
        None => Seq::empty(),
    }
}

/// The certificate chain that a file holds: its PEM certificates, or, where
/// it has none, the whole file as one certificate in DER.
pub open spec fn certificates_of(input: Seq<u8>) -> Seq<Seq<u8>> {
    if pem_certificates(input).len() == 0 {
        seq![input]
    } else {
        pem_certificates(input)
    }
}

/// The first private key among the PEM sections of `input`, if one comes
/// before the end or a malformed section.
pub open spec fn pem_private_key(input: Seq<u8>) -> Option<(KeyKind, Seq<u8>)>
    decreases input.len(),
{
    match pem_read_one(input) {
        Some((kind, der, rest)) => match kind {
            PemKind::Pkcs1Key => Some((KeyKind::Pkcs1, der)),
            PemKind::Pkcs8Key => Some((KeyKind::Pkcs8, der)),
            PemKind::Sec1Key => Some((KeyKind::Sec1, der)),
            _ => if rest.len() < input.len() {
                pem_private_key(rest)
            } else {
                None
            },
        },
        None => None,
    }
}

/// The private key that a file holds: its first PEM key, or, where it has
/// none, the whole file as a PKCS#8 key in DER.
pub open spec fn private_key_of(input: Seq<u8>) -> (KeyKind, Seq<u8>) {
    match pem_private_key(input) {
        Some(key) => key,
        None => (KeyKind::Pkcs8, input),
    }
}

/// The certificate chain in the contents of a certificate file.
pub fn read_certificates(data: &[u8]) -> (certs: Vec<Vec<u8>>)
    ensures
        views(certs@) == certificates_of(data@),
{
    let mut certs: Vec<Vec<u8>> = Vec::new();
    let mut rest: &[u8] = data;
    assert(views(certs@) =~= Seq::<Seq<u8>>::empty());
    loop
        invariant
            pem_certificates(data@) == views(certs@) + pem_certificates(rest@),
        ensures
            pem_certificates(data@) == views(certs@),
        decreases rest@.len(),
    {
        match read_one(rest) {
            Some((item, next)) => {
                let ghost before = views(certs@);
                if let PemKind::Certificate = item.kind {
                    certs.push(item.der);
                    assert(views(certs@) =~= before + seq![item.der@]);
                    assert(before + (seq![item.der@] + pem_certificates(next@)) =~= (before
                        + seq![item.der@]) + pem_certificates(next@));
                }
                rest = next;
            },
            None => {
                assert(views(certs@) + Seq::<Seq<u8>>::empty() =~= views(certs@));
                break ;
            },
        }
    }
    if certs.len() == 0 {
        assert(views(certs@).len() == 0);
        certs.push(slice_to_vec(data));
        assert(views(certs@) =~= seq![data@]);
    } else {
        assert(views(certs@).len() > 0);
    }
    certs
}

/// The private key in the contents of a key file.
pub fn read_private_key(data: &[u8]) -> (key: PrivateKey)
    ensures
        (key.kind, key.der@) == private_key_of(data@),
{
    let mut rest: &[u8] = data;
    loop
        invariant
            pem_private_key(data@) == pem_private_key(rest@),
        ensures
            pem_private_key(data@) is None,
        decreases rest@.len(),
    {
        match read_one(rest) {
            Some((item, next)) => {
                let kind = match item.kind {
                    PemKind::Pkcs1Key => Some(KeyKind::Pkcs1),
                    PemKind::Pkcs8Key => Some(KeyKind::Pkcs8),
                    PemKind::Sec1Key => Some(KeyKind::Sec1),
                    _ => None,
                };
                if let Some(kind) = kind {
                    return PrivateKey { kind, der: item.der };
                }
                rest = next;
            },
            None => { break ; },
        }
    }
    PrivateKey { kind: KeyKind::Pkcs8, der: slice_to_vec(data) }
}

} // verus!
