//! Which recorded events a check of the latest events compares with which
//! expected events: the two lists are aligned at their ends, and as many
//! pairs are compared as the shorter list holds.

use vstd::prelude::*;

verus! {

/// The `k`-th compared pair for lists of `got_len` recorded and `want_len`
/// expected events: both indices count back from the ends of their lists.
pub open spec fn spec_compared_pair(got_len: nat, want_len: nat, k: int) -> (int, int) {
    let m = if got_len <= want_len { got_len } else { want_len };
    (got_len - m + k, want_len - m + k)
}

/// The pairs (index of a recorded event, index of an expected event) that
/// the check of the latest events compares, in the order it compares them.
pub fn compared_event_indices(got_len: usize, want_len: usize) -> (pairs: Vec<(usize, usize)>)
    ensures
        pairs@.len() == (if got_len <= want_len { got_len } else { want_len }),
        forall|k: int|
            0 <= k < pairs@.len() ==> (#[trigger] pairs@[k].0 as int, pairs@[k].1 as int)
                == spec_compared_pair(got_len as nat, want_len as nat, k),
        forall|k: int|
            0 <= k < pairs@.len() ==> #[trigger] pairs@[k].0 as int == got_len - pairs@.len() + k
                && pairs@[k].1 as int == want_len - pairs@.len() + k,
{
    let m: usize = if got_len <= want_len { got_len } else { want_len };
    let mut pairs: Vec<(usize, usize)> = Vec::new();
    for k in 0..m
        invariant
            m == (if got_len <= want_len { got_len } else { want_len }),
            pairs@.len() == k,
            forall|j: int|
                0 <= j < k ==> (#[trigger] pairs@[j].0 as int, pairs@[j].1 as int)
                    == spec_compared_pair(got_len as nat, want_len as nat, j),
    {
        pairs.push((got_len - m + k, want_len - m + k));
    }
    pairs
}

/// The compared pairs walk both lists in step: the first pair starts where
/// the compared tails start, each next pair advances both indices by exactly
/// one, and the recorded index always exceeds the expected one by the
/// difference of the list lengths.
pub proof fn lemma_compared_pairs_advance_in_step(got_len: nat, want_len: nat, k: int)
    requires
        0 <= k,
        k + 1 < (if got_len <= want_len { got_len } else { want_len }),
    ensures
        spec_compared_pair(got_len, want_len, 0) == ({
            let m = if got_len <= want_len { got_len } else { want_len };
            (got_len - m, want_len - m)
        }),
        spec_compared_pair(got_len, want_len, k + 1) == (
            spec_compared_pair(got_len, want_len, k).0 + 1,
            spec_compared_pair(got_len, want_len, k).1 + 1,
        ),
        spec_compared_pair(got_len, want_len, k).0 - spec_compared_pair(got_len, want_len, k).1
            == got_len - want_len,
{
}

/// The compared recorded events are exactly the last `m` ones and the
/// compared expected events exactly the last `m` ones, `m` the shorter
/// length: every compared index lies in its list's tail of that length, and
/// index `k` of the comparison is the `k`-th element of each tail.
pub proof fn lemma_compared_pairs_cover_tails(got_len: nat, want_len: nat, k: int)
    requires
        0 <= k < (if got_len <= want_len { got_len } else { want_len }),
    ensures
        ({
            let m = if got_len <= want_len { got_len } else { want_len };
            let (g, w) = spec_compared_pair(got_len, want_len, k);
            &&& got_len - m <= g < got_len
            &&& want_len - m <= w < want_len
            &&& g - (got_len - m) == k
            &&& w - (want_len - m) == k
        }),
{
}

/// When both lists are non-empty, the last compared pair is the last
/// recorded event and the last expected event.
pub proof fn lemma_last_pair_aligns_ends(got_len: nat, want_len: nat)
    requires
        got_len > 0,
        want_len > 0,
    ensures
        ({
            let m = if got_len <= want_len { got_len } else { want_len };
            spec_compared_pair(got_len, want_len, m - 1) == (got_len - 1, want_len - 1)
        }),
{
}

/// No recorded event and no expected event is compared twice.
pub proof fn lemma_compared_indices_distinct(got_len: nat, want_len: nat, j: int, k: int)
    requires
        j != k,
    ensures
        spec_compared_pair(got_len, want_len, j).0 != spec_compared_pair(got_len, want_len, k).0,
        spec_compared_pair(got_len, want_len, j).1 != spec_compared_pair(got_len, want_len, k).1,
{
}

} // verus!
