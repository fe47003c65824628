//! The TLS layer: its settings, the layer on the connecting side and the
//! layer on the accepting side.
use std::sync::Arc;

use tokio_rustls::rustls::client::ClientConfig;
use tokio_rustls::rustls::pki_types::ServerName;
use tokio_rustls::rustls::RootCertStore;
use tokio_rustls::{TlsAcceptor, TlsConnector};
use vstd::pervasive::unreached;
use vstd::prelude::*;
use vstd::slice::slice_to_vec;
use vstd::string::*;
use vstd::utf8::{decode_utf8, valid_utf8};

use crate::text::{bool_str, bool_text, from_utf8, views};
use crate::{AsyncAccept, AsyncConnect, IOStream, Layer, Layered};

pub mod boundary;
pub mod pem;
pub mod store;
pub mod verify;

pub use self::boundary::{
    answers_with, certifies, config_checks_with, config_trusts, connector_of, firefox_roots,
    firefox_store, generated_for, key_supported, parsed_name, pem_read_one, resolves_with,
    scheme_of, single_cert_accepted, valid_server_name, verifier_over,
};
pub use self::pem::{
    certificates_of, pem_certificates, pem_private_key, private_key_of, read_certificates,
    read_private_key, KeyKind, PemItem, PemKind, PrivateKey,
};
pub use self::store::{
    all_certified, distinct_keys, generate_self_signed, lemma_lookup_certified,
    lemma_lookup_none, lemma_lookup_push,
    lemma_request_keeps_entries, lemma_second_request_is_served_from_the_store, lookup,
    material_for, material_of, new_crt_key_resolver, new_resolver, new_self_signed_resolver,
    resolved, self_signed_material, self_signed_resolver_from, AlwaysResolvesChain,
    CredentialStore, Entries, Identity, Material,
};
pub use self::verify::{
    new_verifier, shared_verifier, skip_verify_schemes, Checking, SkipVerify, Verifier,
    Verifiers,
};

use self::boundary::{
    acceptor_with_resolver, acceptor_with_single_cert, config_with_roots, config_with_verifier,
    connector, server_name,
};

verus! {

/// Why a TLS layer could not be made.
#[derive(Debug, Clone, Copy, PartialEq, Eq, Structural)]
pub enum TlsError {
    /// The server name is neither a DNS name nor an IP address.
    InvalidServerName,
    /// The configuration names neither certificate and key files nor a server
    /// name to sign for.
    NoCredentials,
    /// No self-signed certificate could be generated.
    Generate,
    /// The private key is of no supported kind.
    InvalidKey,
    /// The certificate chain and the key were not accepted together.
    BadCertificate,
    /// No verifier could be built over the root certificates.
    Roots,
}

/// The client side's settings.
#[derive(Debug, Clone, PartialEq, Eq)]
pub struct TlsClientConf {
    /// The server name to indicate and to check the certificate against.
    pub sni: String,
    /// The protocols to offer, in order of preference.
    pub alpn: Vec<Vec<u8>>,
    /// Whether any certificate is accepted.
    pub insecure: bool,
    /// Whether data may be sent before the handshake is done.
    pub early_data: bool,
}

/// A `TlsClientConf` as plain values.
pub struct TlsClientConfView {
    pub sni: Seq<char>,
    pub alpn: Seq<Seq<u8>>,
    pub insecure: bool,
    pub early_data: bool,
}

impl View for TlsClientConf {
    type V = TlsClientConfView;

    open spec fn view(&self) -> TlsClientConfView {
        TlsClientConfView {
            sni: self.sni@,
            alpn: views(self.alpn@),
            insecure: self.insecure,
            early_data: self.early_data,
        }
    }
}

/// The protocol names with a comma and a blank between them.
pub open spec fn alpn_joined(alpn: Seq<Seq<u8>>) -> Seq<u8>
    decreases alpn.len(),
{
    if alpn.len() == 0 {
        Seq::empty()
    } else if alpn.len() == 1 {
        alpn[0]
    } else {
        alpn_joined(alpn.drop_last()) + seq![44u8, 32u8] + alpn.last()
    }
}

/// The protocol names as a list in square brackets.
pub open spec fn alpn_shown(alpn: Seq<Seq<u8>>) -> Seq<u8> {
    seq![91u8] + alpn_joined(alpn) + seq![93u8]
}

impl TlsClientConfView {
    /// Whether the settings can be printed: whether the list of protocol
    /// names is text of at most 64 bytes.
    pub open spec fn printable(self) -> bool {
        alpn_shown(self.alpn).len() <= 64 && valid_utf8(alpn_shown(self.alpn))
    }

    /// The settings as they are logged.
    pub open spec fn text(self) -> Seq<char> {
        "sni: "@ + self.sni + ", alpn: "@ + decode_utf8(alpn_shown(self.alpn)) + ", insecure: "@
            + bool_text(self.insecure) + ", early_data: "@ + bool_text(self.early_data)
    }
}

impl TlsClientConf {
    /// The list of protocol names in square brackets.
    fn alpn_bytes(&self) -> (out: Vec<u8>)
        ensures
            out@ == alpn_shown(self@.alpn),
    {
        let mut out: Vec<u8> = Vec::new();
        out.push(91u8);
        let mut i: usize = 0;
        assert(self@.alpn.take(0) =~= Seq::<Seq<u8>>::empty());
        while i < self.alpn.len()
            invariant
                i <= self.alpn.len(),
                self@.alpn.len() == self.alpn.len(),
                out@ == seq![91u8] + alpn_joined(self@.alpn.take(i as int)),
            decreases self.alpn.len() - i,
        {
            let ghost done = self@.alpn.take(i as int);
            let ghost next = self@.alpn.take(i + 1);
            assert(next.drop_last() =~= done);
            assert(next.last() == self.alpn@[i as int]@);
            if i > 0 {
                out.push(44u8);
                out.push(32u8);
            }
            out.extend_from_slice(self.alpn[i].as_slice());
            assert(out@ =~= seq![91u8] + alpn_joined(next));
            i += 1;
        }
        assert(self@.alpn.take(i as int) =~= self@.alpn);
        out.push(93u8);
        out
    }

    /// Whether the settings can be printed.
    pub fn printable(&self) -> (r: bool)
        ensures
            r == self@.printable(),
    {
        let shown = self.alpn_bytes();
        shown.len() <= 64 && from_utf8(shown.as_slice()).is_some()
    }

    /// Renders the settings for a log line.
    pub fn to_string(&self) -> (s: String)
        requires
            self@.printable(),
        ensures
            s@ == self@.text(),
    {
        let shown = self.alpn_bytes();
        let alpn = match from_utf8(shown.as_slice()) {
            Some(alpn) => alpn,
            None => "",
        };
        String::from_str("sni: ").concat(self.sni.as_str()).concat(", alpn: ").concat(alpn).concat(
            ", insecure: ",
        ).concat(bool_str(self.insecure)).concat(", early_data: ").concat(
            bool_str(self.early_data),
        )
    }
}

/// A stream on which the client side of a TLS handshake is to run, once `io`
/// stands.
pub struct TlsClientStream<T> {
    /// The stream below.
    pub io: T,
    /// The name to indicate and to hold the certificate to.
    pub sni: ServerName<'static>,
    /// The connector that runs the handshake.
    pub cc: TlsConnector,
}

impl<T: IOStream> IOStream for TlsClientStream<T> {
    open spec fn layers(&self) -> Seq<Layer> {
        self.io.layers().push(Layer::TlsClient)
    }
}

/// The TLS layer over `T`, initiating side.
#[derive(Clone)]
pub struct TlsConnect<T> {
    conn: T,
    sni: ServerName<'static>,
    cc: TlsConnector,
    conf: Ghost<TlsClientConfView>,
    config: Ghost<ClientConfig>,
    checking: Ghost<Checking>,
}

impl TlsClientConf {
    /// Whether the server name is a DNS name or an IP address.
    pub fn has_server_name(&self) -> (r: bool)
        ensures
            r == valid_server_name(self.sni@),
    {
        server_name(self.sni.clone()).is_some()
    }
}

impl<T> TlsConnect<T> {
    /// The layer below.
    pub closed spec fn conn(&self) -> T {
        self.conn
    }

    /// The settings that the layer was made with.
    pub closed spec fn conf(&self) -> TlsClientConfView {
        self.conf@
    }

    /// How the layer checks the certificate of its server.
    pub closed spec fn checking(&self) -> Checking {
        self.checking@
    }

    /// The configuration that the layer's connector was made of.
    pub closed spec fn config(&self) -> ClientConfig {
        self.config@
    }

    /// The parsed server name.
    pub closed spec fn sni(&self) -> ServerName<'static> {
        self.sni
    }

    /// The connector that runs the layer's handshakes.
    pub closed spec fn cc(&self) -> TlsConnector {
        self.cc
    }

    /// Whether the layer is made of the settings: it indicates the server
    /// name that they give, its configuration is set up to check
    /// certificates as the layer says it does, and its connector is made of
    /// that configuration with the settings' early data and protocols.
    pub open spec fn made_of(&self, conf: TlsClientConfView) -> bool {
        &&& self.conf() == conf
        &&& self.sni() == parsed_name(conf.sni)
        &&& self.checking().set_up_in(self.config())
        &&& self.cc() == connector_of(self.config(), conf.early_data, conf.alpn)
    }

    /// The layer over `conn` for a parsed name and a way of checking.
    fn build(conn: T, conf: TlsClientConf, checking: Checking) -> (c: Self)
        requires
            valid_server_name(conf.sni@),
        ensures
            c.conn() == conn,
            c.made_of(conf@),
            c.checking() == checking,
    {
        let ghost view = conf@;
        let ghost picked = checking;
        let TlsClientConf { sni, alpn, insecure: _, early_data } = conf;
        let sni = match server_name(sni) {
            Some(sni) => sni,
            None => unreached(),
        };
        let config = match checking {
            Checking::Roots(roots) => config_with_roots(roots),
            Checking::With(verifier) => config_with_verifier(verifier),
        };
        let ghost made = config;
        Self {
            conn,
            sni,
            cc: connector(config, early_data, alpn),
            conf: Ghost(view),
            config: Ghost(made),
            checking: Ghost(picked),
        }
    }

    /// A layer over `conn` with a verifier of its own: over the Firefox
    /// roots, or, where `insecure` is set, one that skips every check.
    ///
    /// The server name must be a DNS name or an IP address; `try_new` takes
    /// any.
    pub fn new(conn: T, conf: TlsClientConf) -> (c: Self)
        requires
            valid_server_name(conf.sni@),
        ensures
            c.conn() == conn,
            c.made_of(conf@),
            c.checking().is_own(conf.insecure),
    {
        let checking = if !conf.insecure {
            Checking::Roots(firefox_roots())
        } else {
            Checking::With(Verifier::Insecure(Arc::new(SkipVerify {  })))
        };
        Self::build(conn, conf, checking)
    }

    /// A layer over `conn` that takes its verifier from `shared`.
    ///
    /// The server name must be a DNS name or an IP address; `try_new_shared`
    /// takes any.
    pub fn new_shared(conn: T, conf: TlsClientConf, shared: &Verifiers) -> (c: Self)
        requires
            valid_server_name(conf.sni@),
        ensures
            c.conn() == conn,
            c.made_of(conf@),
            c.checking() == Checking::With(shared_verifier(shared, conf.insecure)),
    {
        let checking = Checking::With(new_verifier(shared, conf.insecure));
        Self::build(conn, conf, checking)
    }

    /// The layer that `new` makes, where the server name is a DNS name or
    /// an IP address, and `InvalidServerName` where it is not.
    pub fn try_new(conn: T, conf: TlsClientConf) -> (r: Result<Self, TlsError>)
        ensures
            r is Ok == valid_server_name(conf.sni@),
            r matches Ok(c) ==> c.conn() == conn && c.made_of(conf@) && c.checking().is_own(
                conf.insecure,
            ),
            r matches Err(e) ==> e == TlsError::InvalidServerName,
    {
        if conf.has_server_name() {
            Ok(Self::new(conn, conf))
        } else {
            Err(TlsError::InvalidServerName)
        }
    }

    /// The layer that `new_shared` makes, where the server name is a DNS
    /// name or an IP address, and `InvalidServerName` where it is not.
    pub fn try_new_shared(conn: T, conf: TlsClientConf, shared: &Verifiers) -> (r: Result<
        Self,
        TlsError,
    >)
        ensures
            r is Ok == valid_server_name(conf.sni@),
            r matches Ok(c) ==> c.conn() == conn && c.made_of(conf@) && c.checking()
                == Checking::With(shared_verifier(shared, conf.insecure)),
            r matches Err(e) ==> e == TlsError::InvalidServerName,
    {
        if conf.has_server_name() {
            Ok(Self::new_shared(conn, conf, shared))
        } else {
            Err(TlsError::InvalidServerName)
        }
    }
}

/// A connector that takes its verifier from the shared ones is made as
/// one with a verifier of its own is. For the same settings the two indicate
/// the same server name and make their connectors with the same early data
/// and protocols. Where `insecure` is set, both leave the check to a verifier
/// that lets every certificate pass; where it is not, the one checks against
/// a store of the Firefox roots and the other with the shared verifier,
/// which is over such a store where the shared verifiers come from
/// `Verifiers::new`.
pub proof fn lemma_shared_as_own<T>(
    own: TlsConnect<T>,
    other: TlsConnect<T>,
    conf: TlsClientConfView,
    shared: &Verifiers,
    roots: RootCertStore,
)
    requires
        own.made_of(conf),
        own.checking().is_own(conf.insecure),
        other.made_of(conf),
        other.checking() == Checking::With(shared_verifier(shared, conf.insecure)),
        firefox_store(roots),
        verifier_over(shared.firefox(), roots),
    ensures
        own.sni() == other.sni(),
        own.cc() == connector_of(own.config(), conf.early_data, conf.alpn),
        other.cc() == connector_of(other.config(), conf.early_data, conf.alpn),
        own.checking().accepts_any() == conf.insecure,
        other.checking().accepts_any() == conf.insecure,
        conf.insecure ==> own.checking() == other.checking(),
        !conf.insecure ==> (own.checking() matches Checking::Roots(store) && firefox_store(store)
            && config_trusts(own.config(), store)),
        !conf.insecure ==> config_checks_with(
            other.config(),
            Verifier::Firefox(shared.firefox()),
        ) && verifier_over(shared.firefox(), roots),
{
}

impl<T: Layered> Layered for TlsConnect<T> {
    open spec fn stack(&self) -> Seq<Layer> {
        self.conn().stack().push(Layer::TlsClient)
    }

    fn to_string(&self) -> (s: String) {
        let inner = self.conn.to_string();
        assert(self.stack().drop_last() =~= self.conn().stack());
        String::from_str("[tls]").concat(inner.as_str())
    }
}

impl<S: IOStream, T: AsyncConnect<S>> AsyncConnect<S> for TlsConnect<T> {
    type Stream = TlsClientStream<T::Stream>;

    open spec fn connected(&self, stream: S) -> Self::Stream {
        TlsClientStream { io: self.conn().connected(stream), sni: self.sni(), cc: self.cc() }
    }

    /// Connects the layer below, then puts the handshake for the configured
    /// server name on top of it.
    fn connect(&self, stream: S) -> (r: Self::Stream) {
        let sni = self.sni.clone();
        let io = self.conn.connect(stream);
        let r = TlsClientStream { io, sni, cc: self.cc.clone() };
        assert(r.layers() =~= stream.layers() + self.stack());
        r
    }
}

/// The server side's settings: the paths of a certificate file, a key file
/// and an OCSP response, and the name to sign for where no files are named.
/// An empty string stands for a setting that is absent.
#[derive(Debug, Clone, PartialEq, Eq)]
pub struct TlsServerConf {
    pub crt: String,
    pub key: String,
    pub ocsp: String,
    pub server_name: String,
}

/// A `TlsServerConf` as plain values.
pub struct TlsServerConfView {
    pub crt: Seq<char>,
    pub key: Seq<char>,
    pub ocsp: Seq<char>,
    pub server_name: Seq<char>,
}

impl View for TlsServerConf {
    type V = TlsServerConfView;

    open spec fn view(&self) -> TlsServerConfView {
        TlsServerConfView {
            crt: self.crt@,
            key: self.key@,
            ocsp: self.ocsp@,
            server_name: self.server_name@,
        }
    }
}

/// Where a server's certificate and key come from.
#[derive(Debug, Clone, Copy, PartialEq, Eq, Structural)]
pub enum Source {
    /// From the certificate file and the key file.
    Files,
    /// Generated and self-signed, for the server name.
    SelfSigned,
    /// From nowhere: the configuration names neither.
    Missing,
}

impl TlsServerConfView {
    /// Files where both are named; else the server name where there is one.
    pub open spec fn source(self) -> Source {
        if self.crt.len() > 0 && self.key.len() > 0 {
            Source::Files
        } else if self.server_name.len() > 0 {
            Source::SelfSigned
        } else {
            Source::Missing
        }
    }

    /// Whether an OCSP response is named.
    pub open spec fn wants_ocsp(self) -> bool {
        self.ocsp.len() > 0
    }
}

impl TlsServerConfView {
    /// The settings as they are logged.
    pub open spec fn text(self) -> Seq<char> {
        "cert: "@ + self.crt + ", key: "@ + self.key + ", oscp: "@ + self.ocsp + ", server_name: "@
            + self.server_name
    }
}

impl TlsServerConf {
    /// Renders the settings for a log line.
    pub fn to_string(&self) -> (s: String)
        ensures
            s@ == self@.text(),
    {
        String::from_str("cert: ").concat(self.crt.as_str()).concat(", key: ").concat(
            self.key.as_str(),
        ).concat(", oscp: ").concat(self.ocsp.as_str()).concat(", server_name: ").concat(
            self.server_name.as_str(),
        )
    }

    /// Where the certificate and the key come from.
    pub fn source(&self) -> (r: Source)
        ensures
            r == self@.source(),
    {
        if !self.crt.as_str().is_empty() && !self.key.as_str().is_empty() {
            Source::Files
        } else if !self.server_name.as_str().is_empty() {
            Source::SelfSigned
        } else {
            Source::Missing
        }
    }

    /// Whether an OCSP response is named.
    pub fn wants_ocsp(&self) -> (r: bool)
        ensures
            r == self@.wants_ocsp(),
    {
        !self.ocsp.as_str().is_empty()
    }
}

/// What was read from the files that a configuration names. A file that the
/// configuration does not name, or that nobody asked for, is left empty.
#[derive(Debug, Clone, PartialEq, Eq)]
pub struct CredentialFiles {
    /// The certificate file.
    pub crt: Vec<u8>,
    /// The key file.
    pub key: Vec<u8>,
    /// The OCSP response.
    pub ocsp: Vec<u8>,
}

/// The identities that acceptors made with `new_shared` hold in common.
pub struct CredentialCache {
    self_signed: CredentialStore,
    files: CredentialStore,
}

impl CredentialCache {
    /// The generated identities, by server name.
    pub closed spec fn self_signed(&self) -> Entries {
        self.self_signed@
    }

    /// The identities read from files, by the path of the key file.
    pub closed spec fn files(&self) -> Entries {
        self.files@
    }

    /// In neither part has a source two entries, and every identity
    /// answers with what it was made of.
    pub open spec fn wf(&self) -> bool {
        &&& distinct_keys(self.self_signed())
        &&& distinct_keys(self.files())
        &&& all_certified(self.self_signed())
        &&& all_certified(self.files())
    }

    /// Whether the cache holds an identity for the source that `conf`
    /// names.
    pub open spec fn holds(&self, conf: TlsServerConfView) -> bool {
        match conf.source() {
            Source::Files => lookup(self.files(), conf.key) is Some,
            Source::SelfSigned => lookup(self.self_signed(), conf.server_name) is Some,
            Source::Missing => false,
        }
    }

    /// Whether `after` is this cache once it has served `identity` for
    /// `conf`: the part for the kind of source went through one request for
    /// the source, and the other part is as it was.
    pub open spec fn served(
        &self,
        after: &CredentialCache,
        conf: TlsServerConfView,
        identity: Identity,
    ) -> bool {
        match conf.source() {
            Source::Files => after.self_signed() == self.self_signed() && (
                after.files(),
                identity,
            ) == resolved(self.files(), conf.key, identity),
            Source::SelfSigned => after.files() == self.files() && (
                after.self_signed(),
                identity,
            ) == resolved(self.self_signed(), conf.server_name, identity),
            Source::Missing => false,
        }
    }

    /// Whether the two caches hold the same.
    pub open spec fn same(&self, other: &CredentialCache) -> bool {
        other.self_signed() == self.self_signed() && other.files() == self.files()
    }

    /// A cache without entries.
    pub fn new() -> (r: Self)
        ensures
            r.self_signed() == Entries::empty(),
            r.files() == Entries::empty(),
            r.wf(),
    {
        CredentialCache { self_signed: CredentialStore::new(), files: CredentialStore::new() }
    }

    /// The number of identities made so far.
    pub fn len(&self) -> (n: (usize, usize))
        ensures
            n.0 == self.self_signed().len(),
            n.1 == self.files().len(),
    {
        (self.self_signed.len(), self.files.len())
    }

    /// Whether an acceptor for `conf` will look at the certificate file and
    /// the key file: whether `conf` names them and nothing was made from
    /// that key path yet.
    pub fn wants_files(&self, conf: &TlsServerConf) -> (r: bool)
        ensures
            r == (conf@.source() == Source::Files && lookup(self.files(), conf.key@) is None),
    {
        match conf.source() {
            Source::Files => self.files.find(&conf.key).is_none(),
            _ => false,
        }
    }
}

/// Credentials are made once for each source. A cache that has served an
/// identity for some settings holds it; when it serves the same settings
/// again, it hands out the same identity, whatever would have been read or
/// generated anew, and stays as it is.
pub proof fn lemma_served_again(
    before: &CredentialCache,
    between: &CredentialCache,
    after: &CredentialCache,
    conf: TlsServerConfView,
    first: Identity,
    second: Identity,
)
    requires
        before.served(between, conf, first),
        between.served(after, conf, second),
    ensures
        between.holds(conf),
        second == first,
        between.same(after),
{
    match conf.source() {
        Source::Files => {
            lemma_lookup_push(before.files(), conf.key, first, conf.key);
        },
        Source::SelfSigned => {
            lemma_lookup_push(before.self_signed(), conf.server_name, first, conf.server_name);
        },
        Source::Missing => {},
    }
}

/// Two layers that took their credentials through one cache for the same
/// settings, one after the other, present the same certificate: they have
/// the same identity, their acceptors ask the same resolver, that resolver
/// hands out one certified key, and that key holds what the identity was
/// made of. The second request leaves the cache as it was.
pub proof fn lemma_shared_layers_answer_alike<T>(
    first: TlsAccept<T>,
    second: TlsAccept<T>,
    conf: TlsServerConfView,
    first_files: CredentialFiles,
    second_files: CredentialFiles,
    before: &CredentialCache,
    between: &CredentialCache,
    after: &CredentialCache,
)
    requires
        first.has_shared(conf, first_files, before, between),
        second.has_shared(conf, second_files, between, after),
    ensures
        second.identity() == first.identity(),
        second.material() == first.material(),
        between.same(after),
        first.identity() matches Some(identity) && identity.certified() && resolves_with(
            first.ac(),
            identity.resolver(),
        ) && resolves_with(second.ac(), identity.resolver()),
{
    lemma_served_again(
        before,
        between,
        after,
        conf,
        first.identity()->0,
        second.identity()->0,
    );
}

/// A cache never evicts: what it held for any settings before it served
/// others, it holds afterwards.
pub proof fn lemma_served_keeps(
    before: &CredentialCache,
    after: &CredentialCache,
    conf: TlsServerConfView,
    identity: Identity,
    other: TlsServerConfView,
)
    requires
        before.served(after, conf, identity),
        before.holds(other),
    ensures
        after.holds(other),
        other.source() == Source::Files ==> lookup(after.files(), other.key) == lookup(
            before.files(),
            other.key,
        ),
        other.source() == Source::SelfSigned ==> lookup(after.self_signed(), other.server_name)
            == lookup(before.self_signed(), other.server_name),
{
    lemma_lookup_push(before.files(), conf.key, identity, other.key);
    lemma_lookup_push(before.self_signed(), conf.server_name, identity, other.server_name);
}

/// A stream on which the server side of a TLS handshake is to run, once `io`
/// stands.
pub struct TlsServerStream<T> {
    /// The stream below.
    pub io: T,
    /// The acceptor that runs the handshake.
    pub ac: TlsAcceptor,
}

impl<T: IOStream> IOStream for TlsServerStream<T> {
    open spec fn layers(&self) -> Seq<Layer> {
        self.io.layers().push(Layer::TlsServer)
    }
}

/// The TLS layer over `T`, receiving side.
#[derive(Clone)]
pub struct TlsAccept<T> {
    lis: T,
    ac: TlsAcceptor,
    conf: Ghost<TlsServerConfView>,
    material: Ghost<Material>,
    identity: Ghost<Option<Identity>>,
}

/// The OCSP response that a layer with credentials of its own answers with:
/// the contents of the file that the settings name, unless they are empty.
pub open spec fn own_ocsp(conf: TlsServerConfView, file: Seq<u8>) -> Option<Seq<u8>> {
    if conf.wants_ocsp() && file.len() > 0 {
        Some(file)
    } else {
        None
    }
}

/// Whether an acceptor with credentials of its own can fail with `e`: with
/// `NoCredentials` where the settings name no source, else with
/// `BadCertificate`, or with `Generate` where a certificate is to be
/// generated.
pub open spec fn own_error(conf: TlsServerConfView, e: TlsError) -> bool {
    match conf.source() {
        Source::Missing => e == TlsError::NoCredentials,
        Source::Files => e == TlsError::BadCertificate,
        Source::SelfSigned => e == TlsError::Generate || e == TlsError::BadCertificate,
    }
}

/// Whether an acceptor answers every handshake with the material.
pub open spec fn answers(ac: TlsAcceptor, material: Material) -> bool {
    answers_with(ac, material.chain, material.key.0, material.key.1, material.ocsp)
}

/// Whether an acceptor with credentials of its own is owed, as far as that
/// is settled before a certificate is generated: never without a source;
/// from files, where the chain in the certificate file and the key in the
/// key file are accepted together.
pub open spec fn own_success(conf: TlsServerConfView, files: CredentialFiles) -> Option<bool> {
    match conf.source() {
        Source::Missing => Some(false),
        Source::Files => Some(
            single_cert_accepted(
                certificates_of(files.crt@),
                private_key_of(files.key@).0,
                private_key_of(files.key@).1,
            ),
        ),
        Source::SelfSigned => None,
    }
}

/// Whether an acceptor that takes its credentials through a cache can fail
/// with `e`: with `NoCredentials` where the settings name no source, else
/// with `InvalidKey`, or with `Generate` where a certificate is to be
/// generated.
pub open spec fn shared_error(conf: TlsServerConfView, e: TlsError) -> bool {
    match conf.source() {
        Source::Missing => e == TlsError::NoCredentials,
        Source::Files => e == TlsError::InvalidKey,
        Source::SelfSigned => e == TlsError::Generate || e == TlsError::InvalidKey,
    }
}

/// Whether an acceptor that takes its credentials through `cache` is owed,
/// as far as that is settled before a certificate is generated: never
/// without a source; always where the cache holds the identity; from files,
/// where the key in the key file is of a supported kind.
pub open spec fn shared_success(
    conf: TlsServerConfView,
    files: CredentialFiles,
    cache: &CredentialCache,
) -> Option<bool> {
    if conf.source() == Source::Missing {
        Some(false)
    } else if cache.holds(conf) {
        Some(true)
    } else if conf.source() == Source::Files {
        Some(key_supported(private_key_of(files.key@).0, private_key_of(files.key@).1))
    } else {
        None
    }
}

impl<T> TlsAccept<T> {
    /// The layer below.
    pub closed spec fn lis(&self) -> T {
        self.lis
    }

    /// The settings that the layer was made with.
    pub closed spec fn conf(&self) -> TlsServerConfView {
        self.conf@
    }

    /// The acceptor that runs the layer's handshakes.
    pub closed spec fn ac(&self) -> TlsAcceptor {
        self.ac
    }

    /// The chain, the key and the OCSP response that the layer answers
    /// with.
    pub closed spec fn material(&self) -> Material {
        self.material@
    }

    /// The shared identity that the layer answers with, where it has one.
    pub closed spec fn identity(&self) -> Option<Identity> {
        self.identity@
    }

    /// Whether the layer answers with credentials of its own, made for
    /// `conf` of what is in `files`: the chain and the key in the two files,
    /// or one generated certificate with its PKCS#8 key, and the OCSP response
    /// where one is named.
    pub open spec fn has_own(&self, conf: TlsServerConfView, files: CredentialFiles) -> bool {
        &&& self.conf() == conf
        &&& self.identity() is None
        &&& answers(self.ac(), self.material())
        &&& self.material().ocsp == own_ocsp(conf, files.ocsp@)
        &&& match conf.source() {
            Source::Files => self.material().chain == certificates_of(files.crt@)
                && self.material().key == private_key_of(files.key@),
            Source::SelfSigned => self.material().chain.len() == 1 && generated_for(
                self.material().chain[0],
                conf.server_name,
            ) && self.material().key.0 == KeyKind::Pkcs8,
            Source::Missing => false,
        }
    }

    /// Whether the layer answers with an identity that it took through a
    /// cache, which was `before` and is `after`: the identity that the cache
    /// held for the source, or else one made of what is in `files` and
    /// entered.
    pub open spec fn has_shared(
        &self,
        conf: TlsServerConfView,
        files: CredentialFiles,
        before: &CredentialCache,
        after: &CredentialCache,
    ) -> bool {
        &&& self.conf() == conf
        &&& self.identity() matches Some(identity) && self.material() == identity.material()
            && identity.certified() && resolves_with(self.ac(), identity.resolver())
            && before.served(after, conf, identity)
        &&& !before.holds(conf) && conf.source() == Source::Files ==> self.material() == (Material {
            chain: certificates_of(files.crt@),
            key: private_key_of(files.key@),
            ocsp: if conf.wants_ocsp() {
                Some(files.ocsp@)
            } else {
                None
            },
        })
        &&& !before.holds(conf) && conf.source() == Source::SelfSigned ==> material_for(
            self.material(),
            conf.server_name,
        )
    }

    /// The layer over `lis`, given what building an acceptor for the
    /// material came to.
    fn from_acceptor(
        lis: T,
        conf: Ghost<TlsServerConfView>,
        material: Ghost<Material>,
        ac: Option<TlsAcceptor>,
    ) -> (r: Result<Self, TlsError>)
        requires
            ac matches Some(made) ==> answers(made, material@),
        ensures
            match ac {
                Some(ac) => r is Ok && r->Ok_0.lis() == lis && r->Ok_0.conf() == conf@
                    && r->Ok_0.ac() == ac && r->Ok_0.material() == material@
                    && r->Ok_0.identity() is None,
                None => r == Err::<Self, TlsError>(TlsError::BadCertificate),
            },
    {
        match ac {
            Some(ac) => Ok(TlsAccept { lis, ac, conf, material, identity: Ghost(None) }),
            None => Err(TlsError::BadCertificate),
        }
    }

    /// A layer over `lis` that answers with the chain, the key and the OCSP
    /// response. An empty response counts as none. There is one where the
    /// chain and the key are accepted together, and only there.
    pub fn with_material(
        lis: T,
        conf: &TlsServerConf,
        cert: Vec<Vec<u8>>,
        key: PrivateKey,
        ocsp: Vec<u8>,
    ) -> (r: Result<Self, TlsError>)
        ensures
            r is Ok == single_cert_accepted(views(cert@), key.kind, key.der@),
            r matches Ok(a) ==> a.lis() == lis && a.conf() == conf@ && a.identity() is None
                && answers(a.ac(), a.material()) && a.material() == (Material {
                chain: views(cert@),
                key: (key.kind, key.der@),
                ocsp: if ocsp@.len() > 0 {
                    Some(ocsp@)
                } else {
                    None
                },
            }),
            r is Err ==> r == Err::<Self, TlsError>(TlsError::BadCertificate),
    {
        let ghost material = Material {
            chain: views(cert@),
            key: (key.kind, key.der@),
            ocsp: if ocsp@.len() > 0 {
                Some(ocsp@)
            } else {
                None
            },
        };
        Self::from_acceptor(
            lis,
            Ghost(conf@),
            Ghost(material),
            acceptor_with_single_cert(cert, key, ocsp),
        )
    }

    /// A layer over `lis` with credentials of its own: those in `files`
    /// where the settings name a certificate file and a key file, else a
    /// freshly generated self-signed certificate for the server name.
    ///
    /// The settings must name one of the two; `try_new` takes any. It fails
    /// where no certificate could be generated or the chain and the key are
    /// not accepted.
    pub fn new(lis: T, conf: TlsServerConf, files: &CredentialFiles) -> (r: Result<Self, TlsError>)
        requires
            conf@.source() != Source::Missing,
        ensures
            r matches Ok(a) ==> a.lis() == lis && a.has_own(conf@, *files),
            r matches Err(e) ==> own_error(conf@, e),
            own_success(conf@, *files) matches Some(owed) ==> r is Ok == owed,
    {
        let (cert, key) = match conf.source() {
            Source::Files => (read_certificates(files.crt.as_slice()), read_private_key(
                files.key.as_slice(),
            )),
            Source::SelfSigned => match generate_self_signed(conf.server_name.as_str()) {
                Some(made) => made,
                None => { return Err(TlsError::Generate); },
            },
            Source::Missing => unreached(),
        };
        let ocsp = if conf.wants_ocsp() {
            slice_to_vec(files.ocsp.as_slice())
        } else {
            Vec::new()
        };
        assert(views(cert@).len() == cert@.len());
        Self::with_material(lis, &conf, cert, key, ocsp)
    }

    /// A layer over `lis` that takes its credentials through `cache`: the
    /// identity made before for the same key path or server name, else one
    /// made now and entered.
    ///
    /// The settings must name a source; `try_new_shared` takes any. It fails
    /// with `InvalidKey` where the cache has nothing for the source and the
    /// key is of no supported kind, and with `Generate` where no certificate
    /// could be generated. A failure leaves the cache as it was.
    pub fn new_shared(
        lis: T,
        conf: TlsServerConf,
        files: &CredentialFiles,
        cache: &mut CredentialCache,
    ) -> (r: Result<Self, TlsError>)
        requires
            old(cache).wf(),
            conf@.source() != Source::Missing,
        ensures
            final(cache).wf(),
            r matches Ok(a) ==> a.lis() == lis && a.has_shared(
                conf@,
                *files,
                old(cache),
                final(cache),
            ),
            r matches Err(e) ==> shared_error(conf@, e) && old(cache).same(final(cache)),
            shared_success(conf@, *files, old(cache)) matches Some(owed) ==> r is Ok == owed,
    {
        let ghost view = conf@;
        let source = conf.source();
        let ocsp = if conf.wants_ocsp() {
            Some(slice_to_vec(files.ocsp.as_slice()))
        } else {
            None
        };
        let TlsServerConf { crt: _, key, ocsp: _, server_name } = conf;
        let resolver = match source {
            Source::Files => new_crt_key_resolver(
                &mut cache.files,
                key,
                files.crt.as_slice(),
                files.key.as_slice(),
                ocsp,
            ),
            Source::SelfSigned => new_self_signed_resolver(&mut cache.self_signed, server_name),
            Source::Missing => unreached(),
        };
        match resolver {
            Ok(identity) => Ok(
                TlsAccept {
                    lis,
                    ac: acceptor_with_resolver(Arc::clone(identity.get())),
                    conf: Ghost(view),
                    material: Ghost(identity.material()),
                    identity: Ghost(Some(identity)),
                },
            ),
            Err(e) => Err(e),
        }
    }

    /// The layer that `new` makes, where the settings name a source, and
    /// `NoCredentials` where they name none.
    pub fn try_new(lis: T, conf: TlsServerConf, files: &CredentialFiles) -> (r: Result<
        Self,
        TlsError,
    >)
        ensures
            r matches Ok(a) ==> a.lis() == lis && a.has_own(conf@, *files),
            r matches Err(e) ==> own_error(conf@, e),
            own_success(conf@, *files) matches Some(owed) ==> r is Ok == owed,
    {
        match conf.source() {
            Source::Missing => Err(TlsError::NoCredentials),
            _ => Self::new(lis, conf, files),
        }
    }

    /// The layer that `new_shared` makes, where the settings name a source,
    /// and `NoCredentials` where they name none, with the cache left as it
    /// was.
    pub fn try_new_shared(
        lis: T,
        conf: TlsServerConf,
        files: &CredentialFiles,
        cache: &mut CredentialCache,
    ) -> (r: Result<Self, TlsError>)
        requires
            old(cache).wf(),
        ensures
            final(cache).wf(),
            r matches Ok(a) ==> a.lis() == lis && a.has_shared(
                conf@,
                *files,
                old(cache),
                final(cache),
            ),
            r matches Err(e) ==> shared_error(conf@, e) && old(cache).same(final(cache)),
            shared_success(conf@, *files, old(cache)) matches Some(owed) ==> r is Ok == owed,
    {
        match conf.source() {
            Source::Missing => Err(TlsError::NoCredentials),
            _ => Self::new_shared(lis, conf, files, cache),
        }
    }
}

impl<T: Layered> Layered for TlsAccept<T> {
    open spec fn stack(&self) -> Seq<Layer> {
        self.lis().stack().push(Layer::TlsServer)
    }

    fn to_string(&self) -> (s: String) {
        let inner = self.lis.to_string();
        assert(self.stack().drop_last() =~= self.lis().stack());
        String::from_str("[tls]").concat(inner.as_str())
    }
}

impl<S: IOStream, T: AsyncAccept<S>> AsyncAccept<S> for TlsAccept<T> {
    type Stream = TlsServerStream<T::Stream>;

    open spec fn accepted(&self, stream: S) -> Self::Stream {
        TlsServerStream { io: self.lis().accepted(stream), ac: self.ac() }
    }

    /// Accepts on the layer below, then puts the handshake with the layer's
    /// credentials on top of it.
    fn accept(&self, stream: S) -> (r: Self::Stream) {
        let io = self.lis.accept(stream);
        let r = TlsServerStream { io, ac: self.ac.clone() };
        assert(r.layers() =~= stream.layers() + self.stack());
        r
    }
}

} // verus!
