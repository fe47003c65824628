//! The WebSocket layer.
use vstd::prelude::*;
use vstd::string::*;

use crate::{AsyncAccept, AsyncConnect, IOStream, Layer, Layered, MaskMode};

verus! {

/// What the opening handshake carries, and how the client masks.
#[derive(Debug, PartialEq, Eq)]
pub struct WsConf {
    pub host: String,
    pub path: String,
    pub mask_mode: MaskMode,
}

/// A `WsConf` as plain values.
pub struct WsConfView {
    pub host: Seq<char>,
    pub path: Seq<char>,
    pub mask_mode: MaskMode,
}

impl View for WsConf {
    type V = WsConfView;

    open spec fn view(&self) -> WsConfView {
        WsConfView { host: self.host@, path: self.path@, mask_mode: self.mask_mode }
    }
}

impl Clone for WsConf {
    fn clone(&self) -> (r: Self)
        ensures
            r == *self,
    {
        WsConf { host: self.host.clone(), path: self.path.clone(), mask_mode: self.mask_mode }
    }
}

impl WsConf {
    /// The configuration as it is logged.
    pub open spec fn text(&self) -> Seq<char> {
        "host: "@ + self.host@ + ", path: "@ + self.path@
    }

    /// Renders the configuration for a log line.
    pub fn to_string(&self) -> (s: String)
        ensures
            s@ == self.text(),
    {
        String::from_str("host: ").concat(self.host.as_str()).concat(", path: ").concat(
            self.path.as_str(),
        )
    }
}

/// Marks a client that sends its frames unmasked.
#[derive(Debug, Clone, Copy)]
pub struct Simple {}

/// Marks a client that masks each frame with a fresh random key.
#[derive(Debug, Clone, Copy)]
pub struct Standard {}

/// Marks a client that masks every frame with one constant key.
#[derive(Debug, Clone, Copy)]
pub struct Fixed {}

/// A masking policy fixed in a type, so that no frame is written through a
/// test of a stored flag.
pub trait Mode: Copy {
    /// The policy that the type stands for.
    spec fn mask() -> MaskMode;

    /// The policy that the type stands for.
    fn mask_mode() -> (m: MaskMode)
        ensures
            m == Self::mask(),
    ;
}

impl Mode for Simple {
    open spec fn mask() -> MaskMode {
        MaskMode::Skip
    }

    fn mask_mode() -> (m: MaskMode) {
        MaskMode::Skip
    }
}

impl Mode for Standard {
    open spec fn mask() -> MaskMode {
        MaskMode::Standard
    }

    fn mask_mode() -> (m: MaskMode) {
        MaskMode::Standard
    }
}

impl Mode for Fixed {
    open spec fn mask() -> MaskMode {
        MaskMode::Fixed
    }

    fn mask_mode() -> (m: MaskMode) {
        MaskMode::Fixed
    }
}

/// A stream on which the client side of a WebSocket opening handshake is to
/// run, once `io` stands.
#[derive(Debug)]
pub struct WsClientStream<T, M = Simple> {
    /// The stream below.
    pub io: T,
    /// The host that the request names.
    pub host: String,
    /// The path that the request asks for.
    pub path: String,
    /// The masking of the frames sent afterwards.
    pub mode: M,
}

/// A client stream that masks with fresh random keys.
pub type WsStandardClientStream<T> = WsClientStream<T, Standard>;

/// A client stream that masks with one constant key.
pub type WsFixedClientStream<T> = WsClientStream<T, Fixed>;

/// A stream on which the server side of a WebSocket opening handshake is to
/// run, once `io` stands.
#[derive(Debug)]
pub struct WsServerStream<T> {
    /// The stream below.
    pub io: T,
    /// The host that a request must name.
    pub host: String,
    /// The path that a request must ask for.
    pub path: String,
}

impl<T: IOStream, M: Mode> IOStream for WsClientStream<T, M> {
    open spec fn layers(&self) -> Seq<Layer> {
        self.io.layers().push(Layer::WsClient(M::mask()))
    }
}

impl<T: IOStream> IOStream for WsServerStream<T> {
    open spec fn layers(&self) -> Seq<Layer> {
        self.io.layers().push(Layer::WsServer)
    }
}

/// The WebSocket layer over `T`, initiating side.
#[derive(Debug, Clone)]
pub struct WsConnect<T, M = Simple> {
    conn: T,
    conf: WsConf,
    mode: M,
}

impl<T, M> WsConnect<T, M> {
    /// The layer below.
    pub closed spec fn conn(&self) -> T {
        self.conn
    }

    /// The configuration that the layer was made with.
    pub closed spec fn conf(&self) -> WsConf {
        self.conf
    }

    /// The marker of the masking policy.
    pub closed spec fn mode(&self) -> M {
        self.mode
    }
}

impl<T> WsConnect<T> {
    /// A layer over `conn` that sends unmasked frames.
    pub fn new(conn: T, conf: WsConf) -> (r: Self)
        ensures
            r.conn() == conn,
            r.conf() == conf,
    {
        Self { conn, conf, mode: Simple {  } }
    }

    /// The same layer, masking with fresh random keys.
    pub fn standard(self) -> (r: WsConnect<T, Standard>)
        ensures
            r.conn() == self.conn(),
            r.conf() == self.conf(),
    {
        WsConnect { conn: self.conn, conf: self.conf, mode: Standard {  } }
    }

    /// The same layer, masking with one constant key.
    pub fn fixed(self) -> (r: WsConnect<T, Fixed>)
        ensures
            r.conn() == self.conn(),
            r.conf() == self.conf(),
    {
        WsConnect { conn: self.conn, conf: self.conf, mode: Fixed {  } }
    }
}

impl<T: Layered, M: Mode> Layered for WsConnect<T, M> {
    open spec fn stack(&self) -> Seq<Layer> {
        self.conn().stack().push(Layer::WsClient(M::mask()))
    }

    fn to_string(&self) -> (s: String) {
        let inner = self.conn.to_string();
        assert(self.stack().drop_last() =~= self.conn().stack());
        String::from_str("[ws]").concat(inner.as_str())
    }
}

impl<S: IOStream, T: AsyncConnect<S>, M: Mode> AsyncConnect<S> for WsConnect<T, M> {
    type Stream = WsClientStream<T::Stream, M>;

    open spec fn connected(&self, stream: S) -> Self::Stream {
        WsClientStream {
            io: self.conn().connected(stream),
            host: self.conf().host,
            path: self.conf().path,
            mode: self.mode(),
        }
    }

    /// Connects the layer below, then puts the opening handshake for the
    /// configured host and path on top of it.
    fn connect(&self, stream: S) -> (r: Self::Stream) {
        let io = self.conn.connect(stream);
        let r = WsClientStream {
            io,
            host: self.conf.host.clone(),
            path: self.conf.path.clone(),
            mode: self.mode,
        };
        assert(r.layers() =~= stream.layers() + self.stack());
        r
    }
}

/// The WebSocket layer over `T`, receiving side.
#[derive(Debug, Clone)]
pub struct WsAccept<T> {
    lis: T,
    conf: WsConf,
}

impl<T> WsAccept<T> {
    /// The layer below.
    pub closed spec fn lis(&self) -> T {
        self.lis
    }

    /// The configuration that the layer was made with.
    pub closed spec fn conf(&self) -> WsConf {
        self.conf
    }

    /// A layer over `lis` that admits requests for the configured host and
    /// path.
    pub fn new(lis: T, conf: WsConf) -> (r: Self)
        ensures
            r.lis() == lis,
            r.conf() == conf,
    {
        Self { lis, conf }
    }
}

impl<T: Layered> Layered for WsAccept<T> {
    open spec fn stack(&self) -> Seq<Layer> {
        self.lis().stack().push(Layer::WsServer)
    }

    fn to_string(&self) -> (s: String) {
        let inner = self.lis.to_string();
        assert(self.stack().drop_last() =~= self.lis().stack());
        String::from_str("[ws]").concat(inner.as_str())
    }
}

impl<S: IOStream, T: AsyncAccept<S>> AsyncAccept<S> for WsAccept<T> {
    type Stream = WsServerStream<T::Stream>;

    open spec fn accepted(&self, stream: S) -> Self::Stream {
        WsServerStream {
            io: self.lis().accepted(stream),
            host: self.conf().host,
            path: self.conf().path,
        }
    }

    /// Accepts on the layer below, then puts the opening handshake that
    /// checks the configured host and path on top of it.
    fn accept(&self, stream: S) -> (r: Self::Stream) {
        let io = self.lis.accept(stream);
        let r = WsServerStream { io, host: self.conf.host.clone(), path: self.conf.path.clone() };
        assert(r.layers() =~= stream.layers() + self.stack());
        r
    }
}

} // verus!
