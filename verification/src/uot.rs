//! The UDP-over-TCP layer: the stream below carries datagrams, each behind
//! its length. The layer has no handshake of its own.
use vstd::prelude::*;
use vstd::string::*;

use crate::{AsyncAccept, AsyncConnect, IOStream, Layer, Layered};

verus! {

/// A stream that is to carry datagrams, once `io` stands.
#[derive(Debug)]
pub struct UotStream<T> {
    /// The stream below.
    pub io: T,
}

impl<T: IOStream> IOStream for UotStream<T> {
    open spec fn layers(&self) -> Seq<Layer> {
        self.io.layers().push(Layer::Uot)
    }
}

/// The datagram layer over `T`, initiating side.
#[derive(Debug, Clone)]
pub struct UotConnect<T> {
    conn: T,
}

/// The datagram layer over `T`, receiving side.
#[derive(Debug, Clone)]
pub struct UotAccept<T> {
    lis: T,
}

impl<T> UotConnect<T> {
    /// The layer below.
    pub closed spec fn conn(&self) -> T {
        self.conn
    }

    /// A datagram layer over `conn`.
    pub fn new(conn: T) -> (r: Self)
        ensures
            r.conn() == conn,
    {
        Self { conn }
    }
}

impl<T> UotAccept<T> {
    /// The layer below.
    pub closed spec fn lis(&self) -> T {
        self.lis
    }

    /// A datagram layer over `lis`.
    pub fn new(lis: T) -> (r: Self)
        ensures
            r.lis() == lis,
    {
        Self { lis }
    }
}

impl<T: Layered> Layered for UotConnect<T> {
    open spec fn stack(&self) -> Seq<Layer> {
        self.conn().stack().push(Layer::Uot)
    }

    fn to_string(&self) -> (s: String) {
        let inner = self.conn.to_string();
        assert(self.stack().drop_last() =~= self.conn().stack());
        String::from_str("[uot]").concat(inner.as_str())
    }
}

impl<T: Layered> Layered for UotAccept<T> {
    open spec fn stack(&self) -> Seq<Layer> {
        self.lis().stack().push(Layer::Uot)
    }

    fn to_string(&self) -> (s: String) {
        let inner = self.lis.to_string();
        assert(self.stack().drop_last() =~= self.lis().stack());
        String::from_str("[uot]").concat(inner.as_str())
    }
}

impl<S: IOStream, T: AsyncConnect<S>> AsyncConnect<S> for UotConnect<T> {
    type Stream = UotStream<T::Stream>;

    open spec fn connected(&self, stream: S) -> Self::Stream {
        UotStream { io: self.conn().connected(stream) }
    }

    /// Connects the layer below and marks the result as carrying datagrams.
    fn connect(&self, stream: S) -> (r: Self::Stream) {
        let io = self.conn.connect(stream);
        let r = UotStream { io };
        assert(r.layers() =~= stream.layers() + self.stack());
        r
    }
}

impl<S: IOStream, T: AsyncAccept<S>> AsyncAccept<S> for UotAccept<T> {
    type Stream = UotStream<T::Stream>;

    open spec fn accepted(&self, stream: S) -> Self::Stream {
        UotStream { io: self.lis().accepted(stream) }
    }

    /// Accepts on the layer below and marks the result as carrying datagrams.
    fn accept(&self, stream: S) -> (r: Self::Stream) {
        let io = self.lis.accept(stream);
        let r = UotStream { io };
        assert(r.layers() =~= stream.layers() + self.stack());
        r
    }
}

} // verus!
