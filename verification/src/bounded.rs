//! Logs that keep only their newest entries.

use vstd::prelude::*;

verus! {

/// The last `n` elements of `q` (all of it when it is no longer).
pub open spec fn keep_last<A>(q: Seq<A>, n: nat) -> Seq<A> {
    if q.len() > n {
        q.skip(q.len() - n)
    } else {
        q
    }
}

/// Keeping the last `n` elements leaves at most `n`, keeps the newest one last,
/// and drops nothing from a sequence that was short enough.
pub proof fn lemma_keep_last<A>(q: Seq<A>, n: nat)
    ensures
        keep_last(q, n).len() == if q.len() > n { n } else { q.len() },
        q.len() <= n ==> keep_last(q, n) == q,
        n > 0 && q.len() > 0 ==> keep_last(q, n).last() == q.last(),
{
}

/// Drops the oldest entries until at most `max` remain.
pub fn trim_front<T>(items: &mut Vec<T>, max: usize)
    ensures
        final(items)@ == keep_last(old(items)@, max as nat),
{
    let ghost orig = items@;
    let n: usize = items.len();
    let mut dropped: usize = 0;
    while items.len() > max
        invariant
            orig.len() == n,
            items@ == orig.skip(dropped as int),
            items@.len() + dropped == n,
            dropped == 0 || items@.len() >= max,
        decreases items@.len(),
    {
        items.remove(0);
        dropped += 1;
        assert(items@ =~= orig.skip(dropped as int));
    }
    assert(items@ =~= keep_last(orig, max as nat));
}

} // verus!
