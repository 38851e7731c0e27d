//! Shrinking a sequence: discard a prefix or a suffix. Exactly the discarded
//! elements are finalized, each once; the surviving elements move into the
//! result and are never finalized by the consumed operand.

use vstd::prelude::*;

use crate::sequence::FixedSequence;

verus! {

/// The splitting operations. Each consumes its operand by value, finalizes
/// exactly the `l` discarded elements, and returns a newly owned sequence of
/// the survivors in their original order. A call that would discard more
/// elements than the sequence holds is rejected when the caller is verified,
/// not at run time.
pub trait ArrayRemove<T>: View<V = Seq<T>> + Sized {
    /// Discards the first `l` elements and keeps the rest.
    fn truncate_start(self, l: usize) -> (result: Self)
        requires
            l <= self@.len(),
        ensures
            result@ == self@.subrange(l as int, self@.len() as int),
            result@.len() == self@.len() - l,
    ;

    /// Discards the last `l` elements and keeps the rest.
    fn truncate_end(self, l: usize) -> (result: Self)
        requires
            l <= self@.len(),
        ensures
            result@ == self@.subrange(0, self@.len() - l),
            result@.len() == self@.len() - l,
    ;
}

impl<T> ArrayRemove<T> for FixedSequence<T> {
    fn truncate_start(self, l: usize) -> (result: Self) {
        let mut discarded = self.into_vec();
        let kept = discarded.split_off(l);
        // `discarded` now holds only the first `l` elements; dropping it here
        // finalizes each discarded element exactly once and nothing else.
        FixedSequence::from_vec(kept)
    }

    fn truncate_end(self, l: usize) -> (result: Self) {
        let mut elems = self.into_vec();
        let kept_len: usize = elems.len() - l;
        // Truncating finalizes exactly the `l` trailing elements it removes.
        elems.truncate(kept_len);
        FixedSequence::from_vec(elems)
    }
}

} // verus!
