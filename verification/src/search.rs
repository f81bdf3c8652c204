//! A specification of "the first element of a sequence satisfying a
//! predicate", shared by the lookups over participants, teams and timeline
//! frames.

use vstd::prelude::*;

verus! {

/// Index of the first element satisfying `p`, or `s.len()` if there is none.
pub open spec fn first_where<T>(s: Seq<T>, p: spec_fn(T) -> bool) -> int
    decreases s.len(),
{
    if s.len() == 0 {
        0
    } else if p(s[0]) {
        0
    } else {
        1 + first_where(s.skip(1), p)
    }
}

/// A position that no earlier element satisfies, and that itself satisfies
/// `p` or is the end of the sequence, is exactly `first_where`.
pub proof fn lemma_first_where_is<T>(s: Seq<T>, p: spec_fn(T) -> bool, i: int)
    requires
        0 <= i <= s.len(),
        forall|j: int| 0 <= j < i ==> !p(#[trigger] s[j]),
        i < s.len() ==> p(s[i]),
    ensures
        first_where(s, p) == i,
    decreases s.len(),
{
    if i == 0 {
    } else {
        assert(!p(s[0]));
        let t = s.skip(1);
        assert(forall|j: int| 0 <= j < i - 1 ==> #[trigger] t[j] == s[j + 1]);
        lemma_first_where_is(t, p, i - 1);
    }
}

} // verus!
