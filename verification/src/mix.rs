//! The composer: from which of WebSocket and TLS are configured to one of a
//! closed set of stacks, WebSocket always outside TLS.
use vstd::prelude::*;

use crate::nop::{NopAccept, NopConnect};
use crate::tls::{
    own_error, own_success, shared_error, shared_success, shared_verifier, valid_server_name,
    Checking, CredentialCache, CredentialFiles, Source, TlsAccept, TlsClientConf,
    TlsClientStream, TlsConnect, TlsError, TlsServerConf, TlsServerStream, Verifiers,
};
use crate::ws::{
    Fixed, Standard, WsAccept, WsClientStream, WsConf, WsConnect, WsFixedClientStream,
    WsServerStream, WsStandardClientStream,
};
use crate::{AsyncAccept, AsyncConnect, IOStream, Layer, Layered, MaskMode};

verus! {

// ========== client ==========
/// Which layers a client is to have.
#[derive(Debug, Clone)]
pub struct MixClientConf {
    pub ws: Option<WsConf>,
    pub tls: Option<TlsClientConf>,
}

/// The stacks that a client can have.
#[derive(Clone)]
pub enum MixConnect {
    Plain(NopConnect),
    Ws(WsConnect<NopConnect>),
    WsFixed(WsConnect<NopConnect, Fixed>),
    WsStandard(WsConnect<NopConnect, Standard>),
    Tls(TlsConnect<NopConnect>),
    Wss(WsConnect<TlsConnect<NopConnect>>),
    WssFixed(WsConnect<TlsConnect<NopConnect>, Fixed>),
    WssStandard(WsConnect<TlsConnect<NopConnect>, Standard>),
}

/// A client stack by name.
#[derive(Debug, Clone, Copy, PartialEq, Eq, Structural)]
pub enum ClientStack {
    Plain,
    Ws,
    WsFixed,
    WsStandard,
    Tls,
    Wss,
    WssFixed,
    WssStandard,
}

/// The client stack for a configuration: `ws` is the masking where
/// WebSocket is configured, `tls` says whether TLS is.
pub open spec fn client_stack(ws: Option<MaskMode>, tls: bool) -> ClientStack {
    match (ws, tls) {
        (None, false) => ClientStack::Plain,
        (Some(MaskMode::Skip), false) => ClientStack::Ws,
        (Some(MaskMode::Fixed), false) => ClientStack::WsFixed,
        (Some(MaskMode::Standard), false) => ClientStack::WsStandard,
        (None, true) => ClientStack::Tls,
        (Some(MaskMode::Skip), true) => ClientStack::Wss,
        (Some(MaskMode::Fixed), true) => ClientStack::WssFixed,
        (Some(MaskMode::Standard), true) => ClientStack::WssStandard,
    }
}

/// The layers of a client stack, innermost first: TLS where it is
/// configured, then WebSocket where it is.
pub open spec fn client_layers(ws: Option<MaskMode>, tls: bool) -> Seq<Layer> {
    let inner = if tls {
        seq![Layer::TlsClient]
    } else {
        Seq::empty()
    };
    match ws {
        Some(mask) => inner.push(Layer::WsClient(mask)),
        None => inner,
    }
}

/// The masking that a WebSocket configuration asks for.
pub open spec fn mask_of(ws: Option<WsConf>) -> Option<MaskMode> {
    match ws {
        Some(ws) => Some(ws.mask_mode),
        None => None,
    }
}

impl MixConnect {
    /// Which of the stacks this is.
    pub open spec fn kind(&self) -> ClientStack {
        match self {
            MixConnect::Plain(_) => ClientStack::Plain,
            MixConnect::Ws(_) => ClientStack::Ws,
            MixConnect::WsFixed(_) => ClientStack::WsFixed,
            MixConnect::WsStandard(_) => ClientStack::WsStandard,
            MixConnect::Tls(_) => ClientStack::Tls,
            MixConnect::Wss(_) => ClientStack::Wss,
            MixConnect::WssFixed(_) => ClientStack::WssFixed,
            MixConnect::WssStandard(_) => ClientStack::WssStandard,
        }
    }

    /// The WebSocket configuration in the stack.
    pub open spec fn ws(&self) -> Option<WsConf> {
        match self {
            MixConnect::Plain(_) => None,
            MixConnect::Ws(c) => Some(c.conf()),
            MixConnect::WsFixed(c) => Some(c.conf()),
            MixConnect::WsStandard(c) => Some(c.conf()),
            MixConnect::Tls(_) => None,
            MixConnect::Wss(c) => Some(c.conf()),
            MixConnect::WssFixed(c) => Some(c.conf()),
            MixConnect::WssStandard(c) => Some(c.conf()),
        }
    }

    /// The TLS layer in the stack.
    pub open spec fn tls(&self) -> Option<TlsConnect<NopConnect>> {
        match self {
            MixConnect::Plain(_) => None,
            MixConnect::Ws(_) => None,
            MixConnect::WsFixed(_) => None,
            MixConnect::WsStandard(_) => None,
            MixConnect::Tls(c) => Some(*c),
            MixConnect::Wss(c) => Some(c.conn()),
            MixConnect::WssFixed(c) => Some(c.conn()),
            MixConnect::WssStandard(c) => Some(c.conn()),
        }
    }

    /// Whether `stack` is what `conf` asks for: the stack that the
    /// configuration selects, holding the configuration's parts.
    pub open spec fn selects(conf: MixClientConf, stack: MixConnect) -> bool {
        &&& stack.kind() == client_stack(mask_of(conf.ws), conf.tls is Some)
        &&& stack.ws() == conf.ws
        &&& match (conf.tls, stack.tls()) {
            (Some(tls), Some(layer)) => layer.made_of(tls@),
            (None, None) => true,
            _ => false,
        }
    }

    /// Whether a stack can be made for `conf`: whether the server name, where
    /// TLS is configured, is a DNS name or an IP address.
    pub open spec fn accepts(conf: MixClientConf) -> bool {
        conf.tls matches Some(tls) ==> valid_server_name(tls.sni@)
    }

    /// The stack with the TLS layer `tls`: that layer alone, or WebSocket
    /// over it with the masking that `ws` asks for.
    fn with_tls(ws: Option<WsConf>, tls: TlsConnect<NopConnect>) -> (r: Self)
        ensures
            r.kind() == client_stack(mask_of(ws), true),
            r.ws() == ws,
            r.tls() == Some(tls),
    {
        match ws {
            None => MixConnect::Tls(tls),
            Some(ws) => match ws.mask_mode {
                MaskMode::Skip => MixConnect::Wss(WsConnect::new(tls, ws)),
                MaskMode::Fixed => MixConnect::WssFixed(WsConnect::new(tls, ws).fixed()),
                MaskMode::Standard => MixConnect::WssStandard(WsConnect::new(tls, ws).standard()),
            },
        }
    }

    /// The stack without TLS: the identity layer alone, or WebSocket over
    /// it with the masking that `ws` asks for.
    fn without_tls(ws: Option<WsConf>) -> (r: Self)
        ensures
            r.kind() == client_stack(mask_of(ws), false),
            r.ws() == ws,
            r.tls() is None,
    {
        match ws {
            None => MixConnect::Plain(NopConnect {  }),
            Some(ws) => match ws.mask_mode {
                MaskMode::Skip => MixConnect::Ws(WsConnect::new(NopConnect {  }, ws)),
                MaskMode::Fixed => MixConnect::WsFixed(WsConnect::new(NopConnect {  }, ws).fixed()),
                MaskMode::Standard => MixConnect::WsStandard(
                    WsConnect::new(NopConnect {  }, ws).standard(),
                ),
            },
        }
    }

    /// The stack for `conf`, with a certificate verifier of its own where
    /// TLS is configured.
    ///
    /// The server name, where TLS is configured, must be a DNS name or an
    /// IP address; `try_new` takes any.
    pub fn new(conf: MixClientConf) -> (stack: Self)
        requires
            Self::accepts(conf),
        ensures
            Self::selects(conf, stack),
            stack.tls() matches Some(layer) ==> layer.checking().is_own(layer.conf().insecure),
    {
        let MixClientConf { ws, tls } = conf;
        match tls {
            None => Self::without_tls(ws),
            Some(tls) => Self::with_tls(ws, TlsConnect::new(NopConnect {  }, tls)),
        }
    }

    /// The stack for `conf`, with its certificate verifier taken from
    /// `shared` where TLS is configured.
    ///
    /// The server name, where TLS is configured, must be a DNS name or an
    /// IP address; `try_new_shared` takes any.
    pub fn new_shared(conf: MixClientConf, shared: &Verifiers) -> (stack: Self)
        requires
            Self::accepts(conf),
        ensures
            Self::selects(conf, stack),
            stack.tls() matches Some(layer) ==> layer.checking() == Checking::With(
                shared_verifier(shared, layer.conf().insecure),
            ),
    {
        let MixClientConf { ws, tls } = conf;
        match tls {
            None => Self::without_tls(ws),
            Some(tls) => Self::with_tls(ws, TlsConnect::new_shared(NopConnect {  }, tls, shared)),
        }
    }

    /// Whether a stack can be made for `conf`.
    pub fn can_make(conf: &MixClientConf) -> (r: bool)
        ensures
            r == Self::accepts(*conf),
    {
        match &conf.tls {
            Some(tls) => tls.has_server_name(),
            None => true,
        }
    }

    /// The stack that `new` makes, where TLS is not configured or its
    /// server name is a DNS name or an IP address, and `InvalidServerName`
    /// where it is neither.
    pub fn try_new(conf: MixClientConf) -> (r: Result<Self, TlsError>)
        ensures
            r is Ok <==> Self::accepts(conf),
            r matches Ok(stack) ==> Self::selects(conf, stack),
            r matches Ok(stack) ==> (stack.tls() matches Some(layer) ==> layer.checking().is_own(
                layer.conf().insecure,
            )),
            r matches Err(e) ==> e == TlsError::InvalidServerName,
    {
        if Self::can_make(&conf) {
            Ok(Self::new(conf))
        } else {
            Err(TlsError::InvalidServerName)
        }
    }

    /// The stack that `new_shared` makes, where TLS is not configured or
    /// its server name is a DNS name or an IP address, and
    /// `InvalidServerName` where it is neither.
    pub fn try_new_shared(conf: MixClientConf, shared: &Verifiers) -> (r: Result<Self, TlsError>)
        ensures
            r is Ok <==> Self::accepts(conf),
            r matches Ok(stack) ==> Self::selects(conf, stack),
            r matches Ok(stack) ==> (stack.tls() matches Some(layer) ==> layer.checking()
                == Checking::With(shared_verifier(shared, layer.conf().insecure))),
            r matches Err(e) ==> e == TlsError::InvalidServerName,
    {
        if Self::can_make(&conf) {
            Ok(Self::new_shared(conf, shared))
        } else {
            Err(TlsError::InvalidServerName)
        }
    }

    /// The identity layer, where the stack is nothing else.
    pub fn as_plain(&self) -> (r: Option<&NopConnect>)
        ensures
            r is Some <==> self is Plain,
            r matches Some(x) ==> *x == self->Plain_0,
    {
        if let MixConnect::Plain(x) = self {
            Some(x)
        } else {
            None
        }
    }

    /// The WebSocket layer, where the stack is unmasked WebSocket alone.
    pub fn as_ws(&self) -> (r: Option<&WsConnect<NopConnect>>)
        ensures
            r is Some <==> self is Ws,
            r matches Some(x) ==> *x == self->Ws_0,
    {
        if let MixConnect::Ws(x) = self {
            Some(x)
        } else {
            None
        }
    }

    /// The TLS layer, where the stack is TLS alone.
    pub fn as_tls(&self) -> (r: Option<&TlsConnect<NopConnect>>)
        ensures
            r is Some <==> self is Tls,
            r matches Some(x) ==> *x == self->Tls_0,
    {
        if let MixConnect::Tls(x) = self {
            Some(x)
        } else {
            None
        }
    }

    /// The WebSocket layer, where the stack is unmasked WebSocket over TLS.
    pub fn as_wss(&self) -> (r: Option<&WsConnect<TlsConnect<NopConnect>>>)
        ensures
            r is Some <==> self is Wss,
            r matches Some(x) ==> *x == self->Wss_0,
    {
        if let MixConnect::Wss(x) = self {
            Some(x)
        } else {
            None
        }
    }
}

impl Layered for MixConnect {
    open spec fn stack(&self) -> Seq<Layer> {
        match self {
            MixConnect::Plain(c) => c.stack(),
            MixConnect::Ws(c) => c.stack(),
            MixConnect::WsFixed(c) => c.stack(),
            MixConnect::WsStandard(c) => c.stack(),
            MixConnect::Tls(c) => c.stack(),
            MixConnect::Wss(c) => c.stack(),
            MixConnect::WssFixed(c) => c.stack(),
            MixConnect::WssStandard(c) => c.stack(),
        }
    }

    fn to_string(&self) -> (s: String) {
        match self {
            MixConnect::Plain(c) => c.to_string(),
            MixConnect::Ws(c) => c.to_string(),
            MixConnect::WsFixed(c) => c.to_string(),
            MixConnect::WsStandard(c) => c.to_string(),
            MixConnect::Tls(c) => c.to_string(),
            MixConnect::Wss(c) => c.to_string(),
            MixConnect::WssFixed(c) => c.to_string(),
            MixConnect::WssStandard(c) => c.to_string(),
        }
    }
}

/// The stream that a client stack returns: one variant for each stack, so
/// that the caller holds one type whichever stack was selected.
pub enum MixClientStream<T> {
    Plain(T),
    Ws(WsClientStream<T>),
    WsFixed(WsFixedClientStream<T>),
    WsStandard(WsStandardClientStream<T>),
    Tls(TlsClientStream<T>),
    Wss(WsClientStream<TlsClientStream<T>>),
    WssFixed(WsFixedClientStream<TlsClientStream<T>>),
    WssStandard(WsStandardClientStream<TlsClientStream<T>>),
}

impl<T> MixClientStream<T> {
    /// Which stack the stream came from.
    pub open spec fn kind(&self) -> ClientStack {
        match self {
            MixClientStream::Plain(_) => ClientStack::Plain,
            MixClientStream::Ws(_) => ClientStack::Ws,
            MixClientStream::WsFixed(_) => ClientStack::WsFixed,
            MixClientStream::WsStandard(_) => ClientStack::WsStandard,
            MixClientStream::Tls(_) => ClientStack::Tls,
            MixClientStream::Wss(_) => ClientStack::Wss,
            MixClientStream::WssFixed(_) => ClientStack::WssFixed,
            MixClientStream::WssStandard(_) => ClientStack::WssStandard,
        }
    }
}

impl<T: IOStream> IOStream for MixClientStream<T> {
    open spec fn layers(&self) -> Seq<Layer> {
        match self {
            MixClientStream::Plain(s) => s.layers(),
            MixClientStream::Ws(s) => s.layers(),
            MixClientStream::WsFixed(s) => s.layers(),
            MixClientStream::WsStandard(s) => s.layers(),
            MixClientStream::Tls(s) => s.layers(),
            MixClientStream::Wss(s) => s.layers(),
            MixClientStream::WssFixed(s) => s.layers(),
            MixClientStream::WssStandard(s) => s.layers(),
        }
    }
}

impl<S: IOStream> AsyncConnect<S> for MixConnect {
    type Stream = MixClientStream<S>;

    open spec fn connected(&self, stream: S) -> Self::Stream {
        match self {
            MixConnect::Plain(cc) => MixClientStream::Plain(cc.connected(stream)),
            MixConnect::Ws(cc) => MixClientStream::Ws(cc.connected(stream)),
            MixConnect::WsFixed(cc) => MixClientStream::WsFixed(cc.connected(stream)),
            MixConnect::WsStandard(cc) => MixClientStream::WsStandard(cc.connected(stream)),
            MixConnect::Tls(cc) => MixClientStream::Tls(cc.connected(stream)),
            MixConnect::Wss(cc) => MixClientStream::Wss(cc.connected(stream)),
            MixConnect::WssFixed(cc) => MixClientStream::WssFixed(cc.connected(stream)),
            MixConnect::WssStandard(cc) => MixClientStream::WssStandard(cc.connected(stream)),
        }
    }

    /// Connects through the selected stack. The stream comes back in the
    /// variant of the same name.
    fn connect(&self, stream: S) -> (r: Self::Stream)
        ensures
            r.kind() == self.kind(),
    {
        match self {
            MixConnect::Plain(cc) => MixClientStream::Plain(cc.connect(stream)),
            MixConnect::Ws(cc) => MixClientStream::Ws(cc.connect(stream)),
            MixConnect::WsFixed(cc) => MixClientStream::WsFixed(cc.connect(stream)),
            MixConnect::WsStandard(cc) => MixClientStream::WsStandard(cc.connect(stream)),
            MixConnect::Tls(cc) => MixClientStream::Tls(cc.connect(stream)),
            MixConnect::Wss(cc) => MixClientStream::Wss(cc.connect(stream)),
            MixConnect::WssFixed(cc) => MixClientStream::WssFixed(cc.connect(stream)),
            MixConnect::WssStandard(cc) => MixClientStream::WssStandard(cc.connect(stream)),
        }
    }
}

// ========== server ==========
/// Which layers a server is to have.
#[derive(Debug, Clone)]
pub struct MixServerConf {
    pub ws: Option<WsConf>,
    pub tls: Option<TlsServerConf>,
}

/// The stacks that a server can have.
#[derive(Clone)]
pub enum MixAccept {
    Plain(NopAccept),
    Ws(WsAccept<NopAccept>),
    Tls(TlsAccept<NopAccept>),
    Wss(WsAccept<TlsAccept<NopAccept>>),
}

/// A server stack by name.
#[derive(Debug, Clone, Copy, PartialEq, Eq, Structural)]
pub enum ServerStack {
    Plain,
    Ws,
    Tls,
    Wss,
}

/// The server stack for a configuration: `ws` says whether WebSocket is
/// configured, `tls` whether TLS is.
pub open spec fn server_stack(ws: bool, tls: bool) -> ServerStack {
    match (ws, tls) {
        (false, false) => ServerStack::Plain,
        (true, false) => ServerStack::Ws,
        (false, true) => ServerStack::Tls,
        (true, true) => ServerStack::Wss,
    }
}

/// The layers of a server stack, innermost first: TLS where it is
/// configured, then WebSocket where it is.
pub open spec fn server_layers(ws: bool, tls: bool) -> Seq<Layer> {
    let inner = if tls {
        seq![Layer::TlsServer]
    } else {
        Seq::empty()
    };
    if ws {
        inner.push(Layer::WsServer)
    } else {
        inner
    }
}

impl MixAccept {
    /// Which of the stacks this is.
    pub open spec fn kind(&self) -> ServerStack {
        match self {
            MixAccept::Plain(_) => ServerStack::Plain,
            MixAccept::Ws(_) => ServerStack::Ws,
            MixAccept::Tls(_) => ServerStack::Tls,
            MixAccept::Wss(_) => ServerStack::Wss,
        }
    }

    /// The WebSocket configuration in the stack.
    pub open spec fn ws(&self) -> Option<WsConf> {
        match self {
            MixAccept::Plain(_) => None,
            MixAccept::Ws(a) => Some(a.conf()),
            MixAccept::Tls(_) => None,
            MixAccept::Wss(a) => Some(a.conf()),
        }
    }

    /// The TLS layer in the stack.
    pub open spec fn tls(&self) -> Option<TlsAccept<NopAccept>> {
        match self {
            MixAccept::Plain(_) => None,
            MixAccept::Ws(_) => None,
            MixAccept::Tls(a) => Some(*a),
            MixAccept::Wss(a) => Some(a.lis()),
        }
    }

    /// Whether `stack` is what `conf` asks for: the stack that the
    /// configuration selects, holding the configuration's parts.
    pub open spec fn selects(conf: MixServerConf, stack: MixAccept) -> bool {
        &&& stack.kind() == server_stack(conf.ws is Some, conf.tls is Some)
        &&& stack.ws() == conf.ws
        &&& match (conf.tls, stack.tls()) {
            (Some(tls), Some(layer)) => layer.conf() == tls@,
            (None, None) => true,
            _ => false,
        }
    }

    /// The stack with the TLS layer `tls`: that layer alone, or WebSocket
    /// over it.
    fn with_tls(ws: Option<WsConf>, tls: TlsAccept<NopAccept>) -> (r: Self)
        ensures
            r.kind() == server_stack(ws is Some, true),
            r.ws() == ws,
            r.tls() == Some(tls),
    {
        match ws {
            None => MixAccept::Tls(tls),
            Some(ws) => MixAccept::Wss(WsAccept::new(tls, ws)),
        }
    }

    /// The stack without TLS: the identity layer alone, or WebSocket over
    /// it.
    fn without_tls(ws: Option<WsConf>) -> (r: Self)
        ensures
            r.kind() == server_stack(ws is Some, false),
            r.ws() == ws,
            r.tls() is None,
    {
        match ws {
            None => MixAccept::Plain(NopAccept {  }),
            Some(ws) => MixAccept::Ws(WsAccept::new(NopAccept {  }, ws)),
        }
    }

    /// Whether a stack can be asked for: whether the TLS settings, where
    /// there are any, name a source of credentials.
    pub open spec fn accepts(conf: MixServerConf) -> bool {
        conf.tls matches Some(tls) ==> tls@.source() != Source::Missing
    }

    /// Whether a stack can be asked for.
    pub fn can_make(conf: &MixServerConf) -> (r: bool)
        ensures
            r == Self::accepts(*conf),
    {
        match &conf.tls {
            Some(tls) => match tls.source() {
                Source::Missing => false,
                _ => true,
            },
            None => true,
        }
    }

    /// The stack for `conf`, with credentials of its own where TLS is
    /// configured: those in `files`, or a freshly generated self-signed
    /// certificate.
    ///
    /// The TLS settings, where there are any, must name a source; `try_new`
    /// takes any. Without TLS it always succeeds. With TLS it fails where no
    /// certificate could be generated or the chain and the key are not
    /// accepted.
    pub fn new(conf: MixServerConf, files: &CredentialFiles) -> (r: Result<Self, TlsError>)
        requires
            Self::accepts(conf),
        ensures
            conf.tls is None ==> r is Ok,
            r matches Ok(stack) ==> Self::selects(conf, stack),
            conf.tls matches Some(tls) ==> (r matches Ok(stack) ==> stack.tls() matches Some(layer)
                && layer.has_own(tls@, *files)),
            conf.tls matches Some(tls) ==> (r matches Err(e) ==> own_error(tls@, e)),
            conf.tls matches Some(tls) ==> (own_success(tls@, *files) matches Some(owed) ==> r is Ok
                == owed),
    {
        let MixServerConf { ws, tls } = conf;
        match tls {
            None => Ok(Self::without_tls(ws)),
            Some(tls) => match TlsAccept::new(NopAccept {  }, tls, files) {
                Ok(tls) => Ok(Self::with_tls(ws, tls)),
                Err(e) => Err(e),
            },
        }
    }

    /// The stack for `conf`, with its credentials taken through `cache`
    /// where TLS is configured.
    ///
    /// The TLS settings, where there are any, must name a source;
    /// `try_new_shared` takes any. Without TLS it always succeeds and leaves
    /// the cache alone. With TLS it succeeds and fails as
    /// `TlsAccept::new_shared` does.
    pub fn new_shared(
        conf: MixServerConf,
        files: &CredentialFiles,
        cache: &mut CredentialCache,
    ) -> (r: Result<Self, TlsError>)
        requires
            old(cache).wf(),
            Self::accepts(conf),
        ensures
            final(cache).wf(),
            r matches Ok(stack) ==> Self::selects(conf, stack),
            conf.tls is None ==> r is Ok && old(cache).same(final(cache)),
            r is Err ==> old(cache).same(final(cache)),
            conf.tls matches Some(tls) ==> (r matches Ok(stack) ==> stack.tls() matches Some(layer)
                && layer.has_shared(tls@, *files, old(cache), final(cache))),
            conf.tls matches Some(tls) ==> (r matches Err(e) ==> shared_error(tls@, e)),
            conf.tls matches Some(tls) ==> (shared_success(tls@, *files, old(cache)) matches Some(
                owed,
            ) ==> r is Ok == owed),
    {
        let MixServerConf { ws, tls } = conf;
        match tls {
            None => Ok(Self::without_tls(ws)),
            Some(tls) => match TlsAccept::new_shared(NopAccept {  }, tls, files, cache) {
                Ok(tls) => Ok(Self::with_tls(ws, tls)),
                Err(e) => Err(e),
            },
        }
    }

    /// The stack that `new` makes, where it can be asked for, and
    /// `NoCredentials` where TLS is configured without a source.
    pub fn try_new(conf: MixServerConf, files: &CredentialFiles) -> (r: Result<Self, TlsError>)
        ensures
            conf.tls is None ==> r is Ok,
            r matches Ok(stack) ==> Self::selects(conf, stack),
            conf.tls matches Some(tls) ==> (r matches Ok(stack) ==> stack.tls() matches Some(layer)
                && layer.has_own(tls@, *files)),
            conf.tls matches Some(tls) ==> (r matches Err(e) ==> own_error(tls@, e)),
            conf.tls matches Some(tls) ==> (own_success(tls@, *files) matches Some(owed) ==> r is Ok
                == owed),
            !Self::accepts(conf) ==> r is Err,
    {
        if Self::can_make(&conf) {
            Self::new(conf, files)
        } else {
            Err(TlsError::NoCredentials)
        }
    }

    /// The stack that `new_shared` makes, where it can be asked for, and
    /// `NoCredentials` where TLS is configured without a source, with the
    /// cache left as it was.
    pub fn try_new_shared(
        conf: MixServerConf,
        files: &CredentialFiles,
        cache: &mut CredentialCache,
    ) -> (r: Result<Self, TlsError>)
        requires
            old(cache).wf(),
        ensures
            final(cache).wf(),
            r matches Ok(stack) ==> Self::selects(conf, stack),
            conf.tls is None ==> r is Ok && old(cache).same(final(cache)),
            r is Err ==> old(cache).same(final(cache)),
            conf.tls matches Some(tls) ==> (r matches Ok(stack) ==> stack.tls() matches Some(layer)
                && layer.has_shared(tls@, *files, old(cache), final(cache))),
            conf.tls matches Some(tls) ==> (r matches Err(e) ==> shared_error(tls@, e)),
            conf.tls matches Some(tls) ==> (shared_success(tls@, *files, old(cache)) matches Some(
                owed,
            ) ==> r is Ok == owed),
    {
        if Self::can_make(&conf) {
            Self::new_shared(conf, files, cache)
        } else {
            Err(TlsError::NoCredentials)
        }
    }

    /// The identity layer, where the stack is nothing else.
    pub fn as_plain(&self) -> (r: Option<&NopAccept>)
        ensures
            r is Some <==> self is Plain,
            r matches Some(x) ==> *x == self->Plain_0,
    {
        if let MixAccept::Plain(x) = self {
            Some(x)
        } else {
            None
        }
    }

    /// The WebSocket layer, where the stack is WebSocket alone.
    pub fn as_ws(&self) -> (r: Option<&WsAccept<NopAccept>>)
        ensures
            r is Some <==> self is Ws,
            r matches Some(x) ==> *x == self->Ws_0,
    {
        if let MixAccept::Ws(x) = self {
            Some(x)
        } else {
            None
        }
    }

    /// The TLS layer, where the stack is TLS alone.
    pub fn as_tls(&self) -> (r: Option<&TlsAccept<NopAccept>>)
        ensures
            r is Some <==> self is Tls,
            r matches Some(x) ==> *x == self->Tls_0,
    {
        if let MixAccept::Tls(x) = self {
            Some(x)
        } else {
            None
        }
    }

    /// The WebSocket layer, where the stack is WebSocket over TLS.
    pub fn as_wss(&self) -> (r: Option<&WsAccept<TlsAccept<NopAccept>>>)
        ensures
            r is Some <==> self is Wss,
            r matches Some(x) ==> *x == self->Wss_0,
    {
        if let MixAccept::Wss(x) = self {
            Some(x)
        } else {
            None
        }
    }
}

impl Layered for MixAccept {
    open spec fn stack(&self) -> Seq<Layer> {
        match self {
            MixAccept::Plain(a) => a.stack(),
            MixAccept::Ws(a) => a.stack(),
            MixAccept::Tls(a) => a.stack(),
            MixAccept::Wss(a) => a.stack(),
        }
    }

    fn to_string(&self) -> (s: String) {
        match self {
            MixAccept::Plain(a) => a.to_string(),
            MixAccept::Ws(a) => a.to_string(),
            MixAccept::Tls(a) => a.to_string(),
            MixAccept::Wss(a) => a.to_string(),
        }
    }
}

/// The stream that a server stack returns: one variant for each stack.
pub enum MixServerStream<T> {
    Plain(T),
    Ws(WsServerStream<T>),
    Tls(TlsServerStream<T>),
    Wss(WsServerStream<TlsServerStream<T>>),
}

impl<T> MixServerStream<T> {
    /// Which stack the stream came from.
    pub open spec fn kind(&self) -> ServerStack {
        match self {
            MixServerStream::Plain(_) => ServerStack::Plain,
            MixServerStream::Ws(_) => ServerStack::Ws,
            MixServerStream::Tls(_) => ServerStack::Tls,
            MixServerStream::Wss(_) => ServerStack::Wss,
        }
    }
}

impl<T: IOStream> IOStream for MixServerStream<T> {
    open spec fn layers(&self) -> Seq<Layer> {
        match self {
            MixServerStream::Plain(s) => s.layers(),
            MixServerStream::Ws(s) => s.layers(),
            MixServerStream::Tls(s) => s.layers(),
            MixServerStream::Wss(s) => s.layers(),
        }
    }
}

impl<S: IOStream> AsyncAccept<S> for MixAccept {
    type Stream = MixServerStream<S>;

    open spec fn accepted(&self, stream: S) -> Self::Stream {
        match self {
            MixAccept::Plain(ac) => MixServerStream::Plain(ac.accepted(stream)),
            MixAccept::Ws(ac) => MixServerStream::Ws(ac.accepted(stream)),
            MixAccept::Tls(ac) => MixServerStream::Tls(ac.accepted(stream)),
            MixAccept::Wss(ac) => MixServerStream::Wss(ac.accepted(stream)),
        }
    }

    /// Accepts through the selected stack. The stream comes back in the
    /// variant of the same name.
    fn accept(&self, stream: S) -> (r: Self::Stream)
        ensures
            r.kind() == self.kind(),
    {
        match self {
            MixAccept::Plain(ac) => MixServerStream::Plain(ac.accept(stream)),
            MixAccept::Ws(ac) => MixServerStream::Ws(ac.accept(stream)),
            MixAccept::Tls(ac) => MixServerStream::Tls(ac.accept(stream)),
            MixAccept::Wss(ac) => MixServerStream::Wss(ac.accept(stream)),
        }
    }
}

// ========== what holds of every stack ==========
/// The masking of a client stack, where it has a WebSocket layer.
pub open spec fn client_mask(kind: ClientStack) -> Option<MaskMode> {
    match kind {
        ClientStack::Plain | ClientStack::Tls => None,
        ClientStack::Ws | ClientStack::Wss => Some(MaskMode::Skip),
        ClientStack::WsFixed | ClientStack::WssFixed => Some(MaskMode::Fixed),
        ClientStack::WsStandard | ClientStack::WssStandard => Some(MaskMode::Standard),
    }
}

/// Whether a client stack has a TLS layer.
pub open spec fn client_tls(kind: ClientStack) -> bool {
    match kind {
        ClientStack::Plain | ClientStack::Ws | ClientStack::WsFixed | ClientStack::WsStandard => {
            false
        },
        _ => true,
    }
}

/// Every descriptor selects one stack, and no two descriptors the same:
/// the stack's name gives the descriptor back.
pub proof fn lemma_client_selection_is_one_to_one(ws: Option<MaskMode>, tls: bool)
    ensures
        client_mask(client_stack(ws, tls)) == ws,
        client_tls(client_stack(ws, tls)) == tls,
{
}

/// Every client stack has the layers of its name: TLS, where it is there,
/// is the innermost layer and WebSocket, where it is there, the outermost.
pub proof fn lemma_client_stack_layers(stack: MixConnect)
    ensures
        stack.stack() == client_layers(client_mask(stack.kind()), client_tls(stack.kind())),
        client_tls(stack.kind()) ==> stack.stack()[0] == Layer::TlsClient,
        client_mask(stack.kind()) matches Some(mask) ==> stack.stack().last() == Layer::WsClient(
            mask,
        ),
        stack.stack().len() <= 2,
{
    assert(stack.stack() =~= client_layers(client_mask(stack.kind()), client_tls(stack.kind())));
}

/// A stack made for a configuration has the layers that the configuration
/// asks for, in the order TLS, then WebSocket.
pub proof fn lemma_selected_client_layers(conf: MixClientConf, stack: MixConnect)
    requires
        MixConnect::selects(conf, stack),
    ensures
        stack.stack() == client_layers(mask_of(conf.ws), conf.tls is Some),
{
    lemma_client_stack_layers(stack);
    lemma_client_selection_is_one_to_one(mask_of(conf.ws), conf.tls is Some);
}

/// Whether a server stack has a WebSocket layer.
pub open spec fn server_ws(kind: ServerStack) -> bool {
    kind == ServerStack::Ws || kind == ServerStack::Wss
}

/// Whether a server stack has a TLS layer.
pub open spec fn server_tls(kind: ServerStack) -> bool {
    kind == ServerStack::Tls || kind == ServerStack::Wss
}

/// Every descriptor selects one server stack, and no two the same.
pub proof fn lemma_server_selection_is_one_to_one(ws: bool, tls: bool)
    ensures
        server_ws(server_stack(ws, tls)) == ws,
        server_tls(server_stack(ws, tls)) == tls,
{
}

/// Every server stack has the layers of its name: TLS, where it is there,
/// is the innermost layer and WebSocket, where it is there, the outermost.
pub proof fn lemma_server_stack_layers(stack: MixAccept)
    ensures
        stack.stack() == server_layers(server_ws(stack.kind()), server_tls(stack.kind())),
        server_tls(stack.kind()) ==> stack.stack()[0] == Layer::TlsServer,
        server_ws(stack.kind()) ==> stack.stack().last() == Layer::WsServer,
        stack.stack().len() <= 2,
{
    assert(stack.stack() =~= server_layers(server_ws(stack.kind()), server_tls(stack.kind())));
}

/// A stack made for a configuration has the layers that the configuration
/// asks for, in the order TLS, then WebSocket.
pub proof fn lemma_selected_server_layers(conf: MixServerConf, stack: MixAccept)
    requires
        MixAccept::selects(conf, stack),
    ensures
        stack.stack() == server_layers(conf.ws is Some, conf.tls is Some),
{
    lemma_server_stack_layers(stack);
    lemma_server_selection_is_one_to_one(conf.ws is Some, conf.tls is Some);
}

/// The layer on the accepting side that answers a layer of the connecting
/// side. A WebSocket client is answered by the same layer whatever its
/// masking.
pub open spec fn answering(layer: Layer) -> Layer {
    match layer {
        Layer::TlsClient => Layer::TlsServer,
        Layer::WsClient(_) => Layer::WsServer,
        other => other,
    }
}

/// A client stack and a server stack that were made for the same layers
/// pair up: layer for layer, from the innermost outwards, the server's layer
/// answers the client's. The masking of the client is not asked for.
pub proof fn lemma_stacks_pair_up(
    client: MixClientConf,
    connect: MixConnect,
    server: MixServerConf,
    accept: MixAccept,
)
    requires
        MixConnect::selects(client, connect),
        MixAccept::selects(server, accept),
        client.ws is Some == server.ws is Some,
        client.tls is Some == server.tls is Some,
    ensures
        connect.stack().map_values(|layer: Layer| answering(layer)) == accept.stack(),
{
    lemma_selected_client_layers(client, connect);
    lemma_selected_server_layers(server, accept);
    assert(connect.stack().map_values(|layer: Layer| answering(layer)) =~= accept.stack());
}

} // verus!
