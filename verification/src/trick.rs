//! A handle to a stack that many connection handlers share.
use vstd::prelude::*;

use crate::{AsyncAccept, AsyncConnect, IOStream, Layer, Layered};

verus! {

/// A copyable handle to a stack that lives elsewhere.
///
/// The handle borrows: the stack must outlive every copy of it, and the
/// compiler holds the caller to that. A program that hands copies to spawned
/// tasks builds the stack before its accept loop and keeps it until the loop
/// and all handlers have ended.
pub struct Ref<'a, T>(&'a T);

impl<'a, T> Clone for Ref<'a, T> {
    fn clone(&self) -> (r: Self)
        ensures
            r == *self,
    {
        *self
    }
}

impl<'a, T> Copy for Ref<'a, T> {

}

impl<'a, T> View for Ref<'a, T> {
    type V = T;

    /// The stack that the handle refers to.
    closed spec fn view(&self) -> T {
        *self.0
    }
}

impl<'a, T> Ref<'a, T> {
    /// A handle to `x`.
    pub fn new(x: &'a T) -> (r: Self)
        ensures
            r@ == *x,
    {
        Ref(x)
    }

    /// A handle converted from a reference refers to what the reference
    /// refers to.
    pub proof fn lemma_from(x: &'a T)
        ensures
            <Self as vstd::std_specs::convert::FromSpec<&'a T>>::from_spec(x)@ == *x,
    {
    }
}

impl<'a, T> core::ops::Deref for Ref<'a, T> {
    type Target = T;

    /// The stack behind the handle.
    fn deref(&self) -> (x: &T)
        ensures
            *x == self@,
    {
        self.0
    }
}

impl<'a, T> AsRef<T> for Ref<'a, T> {
    /// The stack behind the handle.
    fn as_ref(&self) -> (x: &T)
        ensures
            *x == self@,
    {
        self.0
    }
}

impl<'a, T> From<&'a T> for Ref<'a, T> {
    /// A handle to `x`.
    fn from(x: &'a T) -> (r: Self) {
        Ref(x)
    }
}

impl<'a, T> vstd::std_specs::convert::FromSpecImpl<&'a T> for Ref<'a, T> {
    open spec fn obeys_from_spec() -> bool {
        true
    }

    closed spec fn from_spec(x: &'a T) -> Self {
        Ref(x)
    }
}

impl<'a, T: Layered> Layered for Ref<'a, T> {
    open spec fn stack(&self) -> Seq<Layer> {
        self@.stack()
    }

    fn to_string(&self) -> (s: String) {
        self.0.to_string()
    }
}

impl<'a, S: IOStream, T: AsyncConnect<S>> AsyncConnect<S> for Ref<'a, T> {
    type Stream = T::Stream;

    open spec fn connected(&self, stream: S) -> Self::Stream {
        self@.connected(stream)
    }

    /// Connects through the stack behind the handle.
    fn connect(&self, stream: S) -> (r: Self::Stream) {
        self.0.connect(stream)
    }
}

impl<'a, S: IOStream, T: AsyncAccept<S>> AsyncAccept<S> for Ref<'a, T> {
    type Stream = T::Stream;

    open spec fn accepted(&self, stream: S) -> Self::Stream {
        self@.accepted(stream)
    }

    /// Accepts through the stack behind the handle.
    fn accept(&self, stream: S) -> (r: Self::Stream) {
        self.0.accept(stream)
    }
}

} // verus!
