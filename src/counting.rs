//! Counting and searching over sequences of flags.

use vstd::prelude::*;

verus! {

/// How many entries of `s` are set.
pub open spec fn count_set(s: Seq<bool>) -> nat
    decreases s.len(),
{
    if s.len() == 0 {
        0
    } else {
        count_set(s.drop_last()) + if s.last() {
            1nat
        } else {
            0nat
        }
    }
}

/// `i` is the position of the first set entry of `s`.
pub open spec fn is_first_set(s: Seq<bool>, i: int) -> bool {
    &&& 0 <= i < s.len()
    &&& s[i]
    &&& forall|j: int| 0 <= j < i ==> !s[j]
}

/// A sequence with no set entry counts zero.
pub proof fn lemma_count_none_set(s: Seq<bool>)
    requires
        forall|j: int| 0 <= j < s.len() ==> !s[j],
    ensures
        count_set(s) == 0,
    decreases s.len(),
{
    if s.len() > 0 {
        lemma_count_none_set(s.drop_last());
    }
}

/// A sequence of set entries only counts its length.
pub proof fn lemma_count_all_set(s: Seq<bool>)
    requires
        forall|j: int| 0 <= j < s.len() ==> s[j],
    ensures
        count_set(s) == s.len(),
    decreases s.len(),
{
    if s.len() > 0 {
        lemma_count_all_set(s.drop_last());
    }
}

/// Clearing one set entry lowers the count by one.
pub proof fn lemma_count_clear(s: Seq<bool>, i: int)
    requires
        0 <= i < s.len(),
        s[i],
    ensures
        count_set(s.update(i, false)) + 1 == count_set(s),
    decreases s.len(),
{
    let t = s.update(i, false);
    if i == s.len() - 1 {
        assert(t.drop_last() =~= s.drop_last());
    } else {
        assert(t.drop_last() =~= s.drop_last().update(i, false));
        lemma_count_clear(s.drop_last(), i);
    }
}

} // verus!
