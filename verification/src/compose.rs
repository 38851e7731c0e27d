//! Growing a sequence: attach one element or a whole second sequence at
//! either end. Composition never discards an element — both operands move
//! wholesale into the result — so it never runs a finalizer.

use vstd::prelude::*;

use crate::sequence::FixedSequence;

verus! {

/// The composing operations. Each consumes its operands by value and returns
/// a newly owned sequence holding every element of both, so no finalizer runs
/// during composition and no operand stays observable after the call.
pub trait ArrayAdd<T>: View<V = Seq<T>> + Sized {
    /// Places `e` after the existing elements.
    fn append(self, e: T) -> (result: Self)
        ensures
            result@ == self@.push(e),
            result@.len() == self@.len() + 1,
    ;

    /// Places `e` before the existing elements.
    fn append_back(self, e: T) -> (result: Self)
        ensures
            result@ == seq![e] + self@,
            result@.len() == self@.len() + 1,
    ;

    /// Places `array`'s elements, in order, after the existing elements.
    fn concat(self, array: Self) -> (result: Self)
        ensures
            result@ == self@ + array@,
            result@.len() == self@.len() + array@.len(),
    ;

    /// Places `array`'s elements, in order, before the existing elements.
    fn concat_back(self, array: Self) -> (result: Self)
        ensures
            result@ == array@ + self@,
            result@.len() == self@.len() + array@.len(),
    ;
}

impl<T> ArrayAdd<T> for FixedSequence<T> {
    fn append(self, e: T) -> (result: Self) {
        let mut elems = self.into_vec();
        elems.push(e);
        FixedSequence::from_vec(elems)
    }

    fn append_back(self, e: T) -> (result: Self) {
        let ghost orig = self@;
        let mut elems: Vec<T> = Vec::new();
        elems.push(e);
        let mut tail = self.into_vec();
        elems.append(&mut tail);
        proof {
            assert(elems@ =~= seq![e] + orig);
        }
        FixedSequence::from_vec(elems)
    }

    fn concat(self, array: Self) -> (result: Self) {
        let mut elems = self.into_vec();
        let mut tail = array.into_vec();
        elems.append(&mut tail);
        FixedSequence::from_vec(elems)
    }

    fn concat_back(self, array: Self) -> (result: Self) {
        let mut elems = array.into_vec();
        let mut tail = self.into_vec();
        elems.append(&mut tail);
        FixedSequence::from_vec(elems)
    }
}

} // verus!
