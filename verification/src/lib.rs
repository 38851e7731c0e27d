//! Length-changing transformations on owned, contiguously stored element
//! sequences: grow a sequence by attaching one element or a whole second
//! sequence at either end, or shrink it by discarding a prefix or a suffix.
//!
//! Every operation consumes its operands by value and returns a newly owned
//! sequence, so no element is ever owned twice: elements that survive an
//! operation move into the result, and exactly the discarded elements of a
//! truncation are finalized, each once. Size preconditions (a truncation may
//! not discard more elements than the sequence holds) are verified at every
//! call site, so no operation has a runtime error path.
//!
//! Whether disposal of discarded elements needs per-element finalization or
//! no work at all is decided per element type, at compile time, by the
//! language's own drop machinery — never inspected at run time, and never a
//! concern for composition, which discards nothing.

pub mod compose;
pub mod laws;
pub mod sequence;
pub mod split;

pub use compose::ArrayAdd;
pub use sequence::FixedSequence;
pub use split::ArrayRemove;
