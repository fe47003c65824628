//! The identity layer: the bottom of every stack.
use vstd::prelude::*;
use vstd::string::*;

use crate::{AsyncAccept, AsyncConnect, IOStream, Layer, Layered};

verus! {

/// The identity layer, initiating side.
#[derive(Debug, Clone, Copy)]
pub struct NopConnect {}

/// The identity layer, receiving side.
#[derive(Debug, Clone, Copy)]
pub struct NopAccept {}

impl Layered for NopConnect {
    open spec fn stack(&self) -> Seq<Layer> {
        Seq::empty()
    }

    fn to_string(&self) -> (s: String) {
        String::from_str("[plain]")
    }
}

impl Layered for NopAccept {
    open spec fn stack(&self) -> Seq<Layer> {
        Seq::empty()
    }

    fn to_string(&self) -> (s: String) {
        String::from_str("[plain]")
    }
}

impl<S: IOStream> AsyncConnect<S> for NopConnect {
    type Stream = S;

    open spec fn connected(&self, stream: S) -> S {
        stream
    }

    /// Hands the stream back as it came.
    fn connect(&self, stream: S) -> (r: S) {
        stream
    }
}

impl<S: IOStream> AsyncAccept<S> for NopAccept {
    type Stream = S;

    open spec fn accepted(&self, stream: S) -> S {
        stream
    }

    /// Hands the stream back as it came.
    fn accept(&self, stream: S) -> (r: S) {
        stream
    }
}

} // verus!
