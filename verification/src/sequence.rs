//! The sequence value type that the composing and splitting operations work
//! on: a single ownership unit holding a fixed number of elements.

use vstd::prelude::*;

verus! {

/// An owned sequence of elements stored contiguously in one ownership unit.
///
/// A live value owns every one of its elements; once it is consumed by value
/// — by a composing or splitting operation, or by [`FixedSequence::into_vec`]
/// — the prior binding is gone and can neither observe nor finalize the
/// elements again. There is no partially initialized state.
#[derive(Debug, PartialEq)]
pub struct FixedSequence<T> {
    elems: Vec<T>,
}

impl<T> View for FixedSequence<T> {
    type V = Seq<T>;

    closed spec fn view(&self) -> Seq<T> {
        self.elems@
    }
}

impl<T> FixedSequence<T> {
    /// Takes ownership of `elems` as a sequence value holding exactly its
    /// elements, in order.
    pub fn from_vec(elems: Vec<T>) -> (result: Self)
        ensures
            result@ == elems@,
    {
        FixedSequence { elems }
    }

    /// Consumes the sequence and hands its elements back, in order.
    pub fn into_vec(self) -> (result: Vec<T>)
        ensures
            result@ == self@,
    {
        self.elems
    }

    /// The number of elements the sequence holds.
    pub fn len(&self) -> (n: usize)
        ensures
            n == self@.len(),
    {
        self.elems.len()
    }
}

} // verus!
