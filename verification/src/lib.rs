//! Transport layers that stack: an identity layer, WebSocket, TLS and
//! UDP-over-TCP, and the composer that picks one stack from a sparse
//! configuration.
//!
//! The library decides and performs no I/O. `connect` and `accept` take a
//! stream and hand it back inside the layers that are to be established on
//! it, each with the parameters of its handshake. The program that owns the
//! sockets then runs those handshakes from the innermost layer outwards.
use vstd::prelude::*;

pub mod mix;
pub mod nop;
pub mod opt;
pub mod text;
pub mod tls;
pub mod trick;
pub mod uot;
pub mod ws;

verus! {

/// How a WebSocket client masks the frames it sends.
#[derive(Debug, Clone, Copy, PartialEq, Eq, Structural)]
pub enum MaskMode {
    /// Frames go out unmasked.
    Skip,
    /// Every frame carries the same constant mask.
    Fixed,
    /// Every frame carries a fresh random mask.
    Standard,
}

/// One layer around a stream.
#[derive(Debug, Clone, Copy, PartialEq, Eq, Structural)]
pub enum Layer {
    /// TLS, initiating side.
    TlsClient,
    /// TLS, receiving side.
    TlsServer,
    /// WebSocket framing, initiating side, with its masking of outbound frames.
    WsClient(MaskMode),
    /// WebSocket framing, receiving side.
    WsServer,
    /// Datagrams carried over the stream; it has no handshake.
    Uot,
}

/// A transport, raw or layered. A transport of the caller's comes in as
/// `Raw`; the layered ones are the streams that `connect` and `accept` of
/// this library return.
pub trait IOStream: Sized {
    /// The layers around the raw transport, innermost first. A raw transport
    /// has none.
    spec fn layers(&self) -> Seq<Layer>;
}

/// A raw transport: what the caller connected or accepted, with no layer
/// around it yet.
#[derive(Debug, PartialEq, Eq)]
pub struct Raw<T>(pub T);

impl<T> IOStream for Raw<T> {
    open spec fn layers(&self) -> Seq<Layer> {
        Seq::empty()
    }
}

/// The tag that a layer is logged with.
pub open spec fn layer_tag(layer: Layer) -> Seq<char> {
    match layer {
        Layer::TlsClient | Layer::TlsServer => "[tls]"@,
        Layer::WsClient(_) | Layer::WsServer => "[ws]"@,
        Layer::Uot => "[uot]"@,
    }
}

/// A stack as it is logged: the tags of its layers from the outermost
/// inwards, then `[plain]` for the raw stream.
pub open spec fn stack_text(stack: Seq<Layer>) -> Seq<char>
    decreases stack.len(),
{
    if stack.len() == 0 {
        "[plain]"@
    } else {
        layer_tag(stack.last()) + stack_text(stack.drop_last())
    }
}

/// What a stack of layers can say of itself.
pub trait Layered {
    /// The layers that the stack puts around a stream, innermost first.
    spec fn stack(&self) -> Seq<Layer>;

    /// Renders the stack for a log line.
    fn to_string(&self) -> (s: String)
        ensures
            s@ == stack_text(self.stack()),
    ;
}

/// The initiating side of a stack.
pub trait AsyncConnect<S: IOStream>: Layered {
    /// The stream that `connect` returns.
    type Stream: IOStream;

    /// The stream that `connect` makes of `stream`.
    spec fn connected(&self, stream: S) -> Self::Stream;

    /// Wraps an outbound stream in the layers of this stack. The layers of
    /// `stream` stay below them, in their order.
    fn connect(&self, stream: S) -> (r: Self::Stream)
        ensures
            r == self.connected(stream),
            r.layers() == stream.layers() + self.stack(),
    ;
}

/// The receiving side of a stack.
pub trait AsyncAccept<S: IOStream>: Layered {
    /// The stream that `accept` returns.
    type Stream: IOStream;

    /// The stream that `accept` makes of `stream`.
    spec fn accepted(&self, stream: S) -> Self::Stream;

    /// Wraps an inbound stream in the layers of this stack. The layers of
    /// `stream` stay below them, in their order.
    fn accept(&self, stream: S) -> (r: Self::Stream)
        ensures
            r == self.accepted(stream),
            r.layers() == stream.layers() + self.stack(),
    ;
}

} // verus!
