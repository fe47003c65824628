//! The credentials of the accepting side: how an identity is made of a
//! certificate chain and a key, and the store that makes each identity once.
use std::sync::Arc;

use rustls::server::{ClientHello, ResolvesServerCert};
use rustls::sign::CertifiedKey;
use tokio_rustls::rustls;
use vstd::prelude::*;

use crate::text::views;
use crate::tls::boundary::{
    certified_key, certifies, generated_for, key_supported, self_signed,
};
use crate::tls::pem::{
    certificates_of, private_key_of, read_certificates, read_private_key, KeyKind, PrivateKey,
};
use crate::tls::TlsError;

verus! {

/// Whether the material is what is generated for a server name: a chain of
/// one certificate, which is for that name, its key in PKCS#8, and no OCSP
/// response.
pub open spec fn material_for(material: Material, server_name: Seq<char>) -> bool {
    &&& material.chain.len() == 1
    &&& generated_for(material.chain[0], server_name)
    &&& material.key.0 == KeyKind::Pkcs8
    &&& material.ocsp is None
}

/// The chain and the key that a generated certificate and key pair make: a
/// chain of that one certificate, and the key as PKCS#8.
pub fn self_signed_material(made: Option<(Vec<u8>, Vec<u8>)>) -> (r: Option<
    (Vec<Vec<u8>>, PrivateKey),
>)
    ensures
        match (made, r) {
            (Some((cert, key)), Some((chain, private))) => views(chain@) == seq![cert@]
                && private.kind == KeyKind::Pkcs8 && private.der@ == key@,
            (None, None) => true,
            _ => false,
        },
{
    match made {
        Some((cert, key)) => {
            let chain = vec![cert];
            assert(views(chain@) =~= seq![cert@]);
            Some((chain, PrivateKey { kind: KeyKind::Pkcs8, der: key }))
        },
        None => None,
    }
}

/// A fresh self-signed certificate for `server_name` with its key, or
/// nothing where none could be generated.
pub fn generate_self_signed(server_name: &str) -> (r: Option<(Vec<Vec<u8>>, PrivateKey)>)
    ensures
        r matches Some((chain, key)) ==> material_for(material_of(chain@, key, None), server_name@),
{
    let made = self_signed(server_name);
    let r = self_signed_material(made);
    assert(match (made, r) {
        (Some((cert, _)), Some((chain, _))) => views(chain@).len() == 1 && views(chain@)[0]
            == cert@,
        _ => true,
    });
    r
}

/// A resolver that answers every client with one certificate chain.
#[derive(Debug)]
pub struct AlwaysResolvesChain(Arc<CertifiedKey>);

impl AlwaysResolvesChain {
    /// The chain and the key that the resolver answers with.
    pub closed spec fn key(&self) -> Arc<CertifiedKey> {
        self.0
    }
}

impl ResolvesServerCert for AlwaysResolvesChain {
    fn resolve(&self, _client_hello: ClientHello<'_>) -> (r: Option<Arc<CertifiedKey>>)
        ensures
            r == Some(self.key()),
    {
        Some(Arc::clone(&self.0))
    }
}

/// What an identity is made of: a certificate chain, a private key and,
/// where there is one, an OCSP response.
pub struct Material {
    pub chain: Seq<Seq<u8>>,
    pub key: (KeyKind, Seq<u8>),
    pub ocsp: Option<Seq<u8>>,
}

/// The material in a chain, a key and a response.
pub open spec fn material_of(
    chain: Seq<Vec<u8>>,
    key: PrivateKey,
    ocsp: Option<Vec<u8>>,
) -> Material {
    Material {
        chain: views(chain),
        key: (key.kind, key.der@),
        ocsp: match ocsp {
            Some(ocsp) => Some(ocsp@),
            None => None,
        },
    }
}

/// A certificate chain with its key, ready to answer handshakes, shared by
/// everything that was made from one source.
pub struct Identity {
    resolver: Arc<AlwaysResolvesChain>,
    material: Ghost<Material>,
}

impl Clone for Identity {
    fn clone(&self) -> (r: Self)
        ensures
            r == *self,
    {
        Identity { resolver: Arc::clone(&self.resolver), material: self.material }
    }
}

impl Identity {
    /// What the identity was made of.
    pub closed spec fn material(&self) -> Material {
        self.material@
    }

    /// The resolver that answers with the identity.
    pub closed spec fn resolver(&self) -> Arc<AlwaysResolvesChain> {
        self.resolver
    }

    /// Whether the resolver answers with what the identity was made of: the
    /// certified key that it hands out holds that chain, key and response.
    pub open spec fn certified(&self) -> bool {
        certifies(
            *self.resolver().key(),
            self.material().chain,
            self.material().key.0,
            self.material().key.1,
            self.material().ocsp,
        )
    }

    /// The resolver that answers with the identity.
    pub fn get(&self) -> (r: &Arc<AlwaysResolvesChain>)
        ensures
            *r == self.resolver(),
    {
        &self.resolver
    }
}

/// An identity of the chain, the key and the OCSP response. There is one
/// where the key is of a supported kind, and only there.
pub fn new_resolver(cert: Vec<Vec<u8>>, priv_key: &PrivateKey, ocsp: Option<Vec<u8>>) -> (r:
    Option<Identity>)
    ensures
        r.is_some() == key_supported(priv_key.kind, priv_key.der@),
        r matches Some(identity) ==> identity.material() == material_of(cert@, *priv_key, ocsp),
        r matches Some(identity) ==> identity.certified(),
{
    let ghost material = material_of(cert@, *priv_key, ocsp);
    match certified_key(cert, priv_key, ocsp) {
        Some(key) => Some(
            Identity {
                resolver: Arc::new(AlwaysResolvesChain(Arc::new(key))),
                material: Ghost(material),
            },
        ),
        None => None,
    }
}

/// What a store holds: each source with the identity made from it, in the
/// order in which they were made.
pub type Entries = Seq<(Seq<char>, Identity)>;

/// The identity that a store holds for a source: that of the first entry
/// under that key.
pub open spec fn lookup(entries: Entries, key: Seq<char>) -> Option<Identity>
    decreases entries.len(),
{
    if entries.len() == 0 {
        None
    } else if entries[0].0 == key {
        Some(entries[0].1)
    } else {
        lookup(entries.drop_first(), key)
    }
}

/// Whether every identity answers with what it was made of.
pub open spec fn all_certified(entries: Entries) -> bool {
    forall|i: int| 0 <= i < entries.len() ==> (#[trigger] entries[i]).1.certified()
}

/// What a store of certified identities hands out is certified.
pub proof fn lemma_lookup_certified(entries: Entries, key: Seq<char>)
    requires
        all_certified(entries),
    ensures
        lookup(entries, key) matches Some(found) ==> found.certified(),
    decreases entries.len(),
{
    if entries.len() > 0 && entries[0].0 != key {
        let rest = entries.drop_first();
        assert forall|i: int| 0 <= i < rest.len() implies (#[trigger] rest[i]).1.certified() by {
            assert(rest[i] == entries[i + 1]);
        }
        lemma_lookup_certified(rest, key);
    }
}

/// Whether no source has two entries.
pub open spec fn distinct_keys(entries: Entries) -> bool {
    forall|i: int, j: int|
        0 <= i < j < entries.len() ==> (#[trigger] entries[i]).0 != (#[trigger] entries[j]).0
}

/// What asking a store for the identity of `key` comes to, where `made` is
/// the identity that would be made if the store has none: the store
/// afterwards, and the identity handed out.
pub open spec fn resolved(entries: Entries, key: Seq<char>, made: Identity) -> (Entries, Identity) {
    match lookup(entries, key) {
        Some(found) => (entries, found),
        None => (entries.push((key, made)), made),
    }
}

/// A store has an identity for a key exactly where one of its entries is
/// under that key.
pub proof fn lemma_lookup_none(entries: Entries, key: Seq<char>)
    ensures
        lookup(entries, key) is None <==> forall|i: int|
            0 <= i < entries.len() ==> (#[trigger] entries[i]).0 != key,
    decreases entries.len(),
{
    if entries.len() > 0 {
        let rest = entries.drop_first();
        lemma_lookup_none(rest, key);
        if entries[0].0 != key {
            if lookup(rest, key) is None {
                assert forall|i: int| 0 <= i < entries.len() implies (#[trigger] entries[i]).0
                    != key by {
                    if i > 0 {
                        assert(entries[i] == rest[i - 1]);
                    }
                }
            } else {
                let i = choose|i: int| 0 <= i < rest.len() && (#[trigger] rest[i]).0 == key;
                assert(entries[i + 1] == rest[i]);
            }
        }
    }
}

/// An entry put at the end of a store answers for its key only where the
/// store had none for it, and changes the answer for no other key.
pub proof fn lemma_lookup_push(entries: Entries, key: Seq<char>, made: Identity, other: Seq<char>)
    ensures
        lookup(entries.push((key, made)), other) == match lookup(entries, other) {
            Some(found) => Some(found),
            None => if other == key {
                Some(made)
            } else {
                None
            },
        },
    decreases entries.len(),
{
    let pushed = entries.push((key, made));
    if entries.len() == 0 {
        assert(pushed.drop_first() =~= entries);
    } else {
        assert(pushed[0] == entries[0]);
        assert(pushed.drop_first() =~= entries.drop_first().push((key, made)));
        if entries[0].0 != other {
            lemma_lookup_push(entries.drop_first(), key, made, other);
        }
    }
}

/// Credentials are made once for each source. Asking twice for the same
/// source hands out the identity that the first request made or found,
/// whatever a second making would have given, and leaves the store as the
/// first request left it.
pub proof fn lemma_second_request_is_served_from_the_store(
    entries: Entries,
    key: Seq<char>,
    first: Identity,
    second: Identity,
)
    ensures
        resolved(resolved(entries, key, first).0, key, second) == resolved(entries, key, first),
{
    lemma_lookup_push(entries, key, first, key);
}

/// A request never evicts: every entry stays where it was, at most one is
/// added, and the answer for every other source stays what it was.
pub proof fn lemma_request_keeps_entries(
    entries: Entries,
    key: Seq<char>,
    made: Identity,
    other: Seq<char>,
)
    ensures
        entries.is_prefix_of(resolved(entries, key, made).0),
        resolved(entries, key, made).0.len() <= entries.len() + 1,
        other != key ==> lookup(resolved(entries, key, made).0, other) == lookup(entries, other),
        distinct_keys(entries) ==> distinct_keys(resolved(entries, key, made).0),
{
    lemma_lookup_push(entries, key, made, other);
    lemma_lookup_none(entries, key);
}

/// The identities made so far, by source: by server name for those that
/// were generated, by the path of the key file for those read from files.
pub struct CredentialStore {
    entries: Vec<(String, Identity)>,
}

impl View for CredentialStore {
    type V = Entries;

    closed spec fn view(&self) -> Entries {
        self.entries@.map_values(|e: (String, Identity)| (e.0@, e.1))
    }
}

impl CredentialStore {
    /// No source has two entries, and every identity answers with what it
    /// was made of.
    pub open spec fn wf(&self) -> bool {
        distinct_keys(self@) && all_certified(self@)
    }

    /// A store without entries.
    pub fn new() -> (r: Self)
        ensures
            r@ == Entries::empty(),
            r.wf(),
    {
        let r = CredentialStore { entries: Vec::new() };
        assert(r@ =~= Entries::empty());
        r
    }

    /// The number of identities made so far.
    pub fn len(&self) -> (n: usize)
        ensures
            n == self@.len(),
    {
        self.entries.len()
    }

    /// The identity that the store holds for `key`.
    pub fn find(&self, key: &String) -> (r: Option<Identity>)
        ensures
            r == lookup(self@, key@),
            self.wf() ==> (r matches Some(found) ==> found.certified()),
    {
        proof {
            if self.wf() {
                lemma_lookup_certified(self@, key@);
            }
        }
        let mut i: usize = 0;
        assert(self@.skip(0) =~= self@);
        while i < self.entries.len()
            invariant
                i <= self.entries.len(),
                self@.len() == self.entries.len(),
                lookup(self@, key@) == lookup(self@.skip(i as int), key@),
            decreases self.entries.len() - i,
        {
            assert(self@.skip(i as int)[0] == self@[i as int]);
            assert(self@.skip(i as int).drop_first() =~= self@.skip(i + 1));
            if self.entries[i].0 == *key {
                return Some(self.entries[i].1.clone());
            }
            i += 1;
        }
        assert(self@.skip(i as int).len() == 0);
        None
    }

    /// Enters an identity for a source that has none yet.
    pub fn insert(&mut self, key: String, identity: Identity)
        requires
            old(self).wf(),
            lookup(old(self)@, key@) is None,
            identity.certified(),
        ensures
            final(self)@ == old(self)@.push((key@, identity)),
            (final(self)@, identity) == resolved(old(self)@, key@, identity),
            final(self).wf(),
    {
        proof {
            lemma_lookup_none(self@, key@);
        }
        self.entries.push((key, identity));
        assert(self@ =~= old(self)@.push((key@, identity)));
    }
}

/// The identity for a server name, given what generating one came to: the
/// one in the store where there is one, else the one made of `generated`,
/// which is entered.
pub fn self_signed_resolver_from(
    store: &mut CredentialStore,
    server_name: String,
    generated: Option<(Vec<Vec<u8>>, PrivateKey)>,
) -> (r: Result<Identity, TlsError>)
    requires
        old(store).wf(),
    ensures
        final(store).wf(),
        r matches Ok(x) ==> (final(store)@, x) == resolved(old(store)@, server_name@, x),
        r matches Ok(x) ==> x.certified(),
        r is Err ==> final(store)@ == old(store)@,
        r is Ok <==> lookup(old(store)@, server_name@) is Some || (generated matches Some(
            (chain, key),
        ) && key_supported(key.kind, key.der@)),
        r matches Err(e) ==> e == if generated is None {
            TlsError::Generate
        } else {
            TlsError::InvalidKey
        },
        lookup(old(store)@, server_name@) is None ==> (r matches Ok(x) ==> generated matches Some(
            (chain, key),
        ) && x.material() == material_of(chain@, key, None)),
{
    if let Some(found) = store.find(&server_name) {
        return Ok(found);
    }
    let (cert, key) = match generated {
        Some(made) => made,
        None => { return Err(TlsError::Generate); },
    };
    let resolver = match new_resolver(cert, &key, None) {
        Some(resolver) => resolver,
        None => { return Err(TlsError::InvalidKey); },
    };
    store.insert(server_name, resolver.clone());
    Ok(resolver)
}

/// The identity for a server name: the one made for that name before, or a
/// freshly generated one, which is entered in the store.
pub fn new_self_signed_resolver(store: &mut CredentialStore, server_name: String) -> (r: Result<
    Identity,
    TlsError,
>)
    requires
        old(store).wf(),
    ensures
        final(store).wf(),
        r matches Ok(x) ==> (final(store)@, x) == resolved(old(store)@, server_name@, x),
        r matches Ok(x) ==> x.certified(),
        r is Err ==> final(store)@ == old(store)@ && lookup(old(store)@, server_name@) is None,
        lookup(old(store)@, server_name@) is Some ==> r is Ok,
        r matches Err(e) ==> e == TlsError::Generate || e == TlsError::InvalidKey,
        lookup(old(store)@, server_name@) is None ==> (r matches Ok(x) ==> material_for(
            x.material(),
            server_name@,
        )),
{
    if let Some(found) = store.find(&server_name) {
        return Ok(found);
    }
    let generated = generate_self_signed(server_name.as_str());
    self_signed_resolver_from(store, server_name, generated)
}

/// The identity for a certificate file and a key file: the one made for
/// that key path before, or one made of the files' contents, which is
/// entered in the store. The contents are looked at only where the store has
/// nothing for the path.
pub fn new_crt_key_resolver(
    store: &mut CredentialStore,
    key: String,
    crt_file: &[u8],
    key_file: &[u8],
    ocsp: Option<Vec<u8>>,
) -> (r: Result<Identity, TlsError>)
    requires
        old(store).wf(),
    ensures
        final(store).wf(),
        r matches Ok(x) ==> (final(store)@, x) == resolved(old(store)@, key@, x),
        r matches Ok(x) ==> x.certified(),
        r is Err ==> final(store)@ == old(store)@ && r == Err::<Identity, TlsError>(
            TlsError::InvalidKey,
        ),
        r is Ok <==> lookup(old(store)@, key@) is Some || key_supported(
            private_key_of(key_file@).0,
            private_key_of(key_file@).1,
        ),
        lookup(old(store)@, key@) is None ==> (r matches Ok(x) ==> x.material() == (Material {
            chain: certificates_of(crt_file@),
            key: private_key_of(key_file@),
            ocsp: match ocsp {
                Some(ocsp) => Some(ocsp@),
                None => None,
            },
        })),
{
    if let Some(found) = store.find(&key) {
        return Ok(found);
    }
    let cert = read_certificates(crt_file);
    let priv_key = read_private_key(key_file);
    let resolver = match new_resolver(cert, &priv_key, ocsp) {
        Some(resolver) => resolver,
        None => { return Err(TlsError::InvalidKey); },
    };
    store.insert(key, resolver.clone());
    Ok(resolver)
}

} // verus!
