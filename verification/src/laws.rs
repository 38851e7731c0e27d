//! The algebraic laws the composing and splitting operations obey, stated
//! over the sequence views that their contracts use and proved for all
//! element types and all sizes.

use vstd::prelude::*;

verus! {

/// Splitting a concatenation at the junction recovers the operands: on
/// `a + b` — the view that `concat`/`concat_back` return — discarding the
/// first `a.len()` elements, as `truncate_start` does, yields exactly `b`,
/// and discarding the last `b.len()` elements, as `truncate_end` does,
/// yields exactly `a`.
pub proof fn lemma_concat_split_round_trip<T>(a: Seq<T>, b: Seq<T>)
    ensures
        (a + b).subrange(a.len() as int, (a + b).len() as int) == b,
        (a + b).subrange(0, (a + b).len() - b.len()) == a,
{
    assert((a + b).subrange(a.len() as int, (a + b).len() as int) =~= b);
    assert((a + b).subrange(0, (a + b).len() - b.len()) =~= a);
}

/// Composition never reorders: in the view `a + b` that `concat` and
/// `concat_back` return, each element of either operand keeps its relative
/// position, and the single element attached by `append`/`append_back` lands
/// at the chosen end with every original element unmoved.
pub proof fn lemma_compose_preserves_order<T>(a: Seq<T>, b: Seq<T>, e: T)
    ensures
        forall|i: int| 0 <= i < a.len() ==> (a + b)[i] == a[i],
        forall|j: int| 0 <= j < b.len() ==> (a + b)[a.len() + j] == b[j],
        forall|i: int| 0 <= i < a.len() ==> a.push(e)[i] == a[i],
        a.push(e)[a.len() as int] == e,
        (seq![e] + a)[0] == e,
        forall|i: int| 0 <= i < a.len() ==> (seq![e] + a)[1 + i] == a[i],
{
}

/// Truncation never reorders the survivors: in the views that
/// `truncate_start` and `truncate_end` return, each surviving element keeps
/// its relative order, shifted only by the count discarded at the front.
pub proof fn lemma_truncate_preserves_order<T>(s: Seq<T>, l: int)
    requires
        0 <= l <= s.len(),
    ensures
        forall|i: int| 0 <= i < s.len() - l ==> s.subrange(l, s.len() as int)[i] == s[l + i],
        forall|i: int| 0 <= i < s.len() - l ==> s.subrange(0, s.len() - l)[i] == s[i],
{
}

} // verus!
