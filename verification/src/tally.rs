use vstd::prelude::*;

verus! {

/// The number of accepted votes a tally records: the sum of its per-candidate
/// counters.
pub open spec fn sum_votes(s: Seq<u32>) -> int
    decreases s.len(),
{
    if s.len() == 0 {
        0
    } else {
        sum_votes(s.drop_last()) + s.last()
    }
}

/// A sum of unsigned counters is never negative.
pub proof fn lemma_sum_votes_nonneg(s: Seq<u32>)
    ensures
        sum_votes(s) >= 0,
    decreases s.len(),
{
    if s.len() > 0 {
        lemma_sum_votes_nonneg(s.drop_last());
    }
}

/// No single counter exceeds the sum of all of them.
pub proof fn lemma_counter_le_sum(s: Seq<u32>, i: int)
    requires
        0 <= i < s.len(),
    ensures
        s[i] <= sum_votes(s),
    decreases s.len(),
{
    if i == s.len() - 1 {
        lemma_sum_votes_nonneg(s.drop_last());
    } else {
        lemma_counter_le_sum(s.drop_last(), i);
    }
}

/// Appending a counter adds its value to the sum.
pub proof fn lemma_sum_votes_push(s: Seq<u32>, v: u32)
    ensures
        sum_votes(s.push(v)) == sum_votes(s) + v,
{
    assert(s.push(v).drop_last() =~= s);
    assert(s.push(v).last() == v);
}

/// Replacing one counter moves the sum by the difference.
pub proof fn lemma_sum_votes_update(s: Seq<u32>, i: int, v: u32)
    requires
        0 <= i < s.len(),
    ensures
        sum_votes(s.update(i, v)) == sum_votes(s) - s[i] + v,
    decreases s.len(),
{
    let t = s.update(i, v);
    if i == s.len() - 1 {
        assert(t.drop_last() =~= s.drop_last());
        assert(t.last() == v);
    } else {
        lemma_sum_votes_update(s.drop_last(), i, v);
        assert(t.drop_last() =~= s.drop_last().update(i, v));
        assert(t.last() == s.last());
    }
}

} // verus!
