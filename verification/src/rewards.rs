//! Bookkeeping of validator rewards and of dispute outcomes on the relay
//! chain: per-validator reward counters for backing and for availability
//! bitfields, and the logs of rewarded and punished validators per session.

use vstd::prelude::*;
use std::collections::HashMap;

verus! {

broadcast use vstd::std_specs::hash::group_hash_axioms;

/// Index of a validator in the active set of a session.
pub type ValidatorIndex = u32;

/// Index of a session.
pub type SessionIndex = u32;

/// How often `v` occurs in `s`.
pub open spec fn occurrences(s: Seq<ValidatorIndex>, v: ValidatorIndex) -> nat
    decreases s.len(),
{
    if s.len() == 0 {
        0
    } else {
        occurrences(s.drop_last(), v) + (if s.last() == v { 1nat } else { 0nat })
    }
}

/// The number of rewards that counter map `m` records for `v`; a validator
/// without an entry has none.
pub open spec fn reward_count(m: Map<ValidatorIndex, usize>, v: ValidatorIndex) -> nat {
    if m.contains_key(v) {
        m[v] as nat
    } else {
        0
    }
}

/// A validator without an entry has no rewards: a fresh or cleared ledger
/// reports zero for every validator.
pub proof fn lemma_no_entry_no_rewards(m: Map<ValidatorIndex, usize>, v: ValidatorIndex)
    ensures
        !m.contains_key(v) ==> reward_count(m, v) == 0,
        m.contains_key(v) ==> reward_count(m, v) == m[v],
        reward_count(Map::<ValidatorIndex, usize>::empty(), v) == 0,
{
}

/// Setting the entry of `v` to `c` makes its count `c` and leaves every other
/// validator's count as it was.
pub proof fn lemma_count_after_insert(m: Map<ValidatorIndex, usize>, v: ValidatorIndex, c: usize, w: ValidatorIndex)
    ensures
        reward_count(m.insert(v, c), v) == c,
        w != v ==> reward_count(m.insert(v, c), w) == reward_count(m, w),
{
}

/// No value occurs in the empty sequence; appending `x` adds one occurrence
/// of `x` and none of anything else.
pub proof fn lemma_occurrences_push(s: Seq<ValidatorIndex>, x: ValidatorIndex, v: ValidatorIndex)
    ensures
        occurrences(Seq::<ValidatorIndex>::empty(), v) == 0,
        occurrences(s.push(x), v) == occurrences(s, v) + (if x == v { 1nat } else { 0nat }),
{
    assert(s.push(x).drop_last() =~= s);
}

/// Rewarding a list on a fresh ledger records, for every validator, exactly
/// how often the list names it, and one reward gives exactly one.
pub proof fn lemma_fresh_ledger_counts(validators: Seq<ValidatorIndex>, v: ValidatorIndex, x: ValidatorIndex)
    ensures
        reward_count(Map::<ValidatorIndex, usize>::empty(), v) + occurrences(validators, v)
            == occurrences(validators, v),
        reward_count(Map::<ValidatorIndex, usize>::empty(), v) + occurrences(seq![x], v)
            == (if x == v { 1nat } else { 0nat }),
{
    lemma_occurrences_push(Seq::<ValidatorIndex>::empty(), x, v);
    assert(Seq::<ValidatorIndex>::empty().push(x) =~= seq![x]);
}

/// Occurrences in a concatenation add up.
pub proof fn lemma_occurrences_concat(a: Seq<ValidatorIndex>, b: Seq<ValidatorIndex>, v: ValidatorIndex)
    ensures
        occurrences(a + b, v) == occurrences(a, v) + occurrences(b, v),
    decreases b.len(),
{
    if b.len() == 0 {
        assert(a + b =~= a);
    } else {
        lemma_occurrences_concat(a, b.drop_last(), v);
        assert((a + b).drop_last() =~= a + b.drop_last());
    }
}

/// No value occurs more often than the sequence is long.
pub proof fn lemma_occurrences_bounded(s: Seq<ValidatorIndex>, v: ValidatorIndex)
    ensures
        occurrences(s, v) <= s.len(),
    decreases s.len(),
{
    if s.len() > 0 {
        lemma_occurrences_bounded(s.drop_last(), v);
    }
}

/// A prefix holds no more occurrences than the whole sequence.
pub proof fn lemma_occurrences_prefix(s: Seq<ValidatorIndex>, i: int, v: ValidatorIndex)
    requires
        0 <= i <= s.len(),
    ensures
        occurrences(s.take(i), v) <= occurrences(s, v),
{
    lemma_occurrences_concat(s.take(i), s.skip(i), v);
    assert(s.take(i) + s.skip(i) =~= s);
}

/// Counters of rewards per validator.
pub struct RewardLedger {
    counts: HashMap<ValidatorIndex, usize>,
}

impl View for RewardLedger {
    type V = Map<ValidatorIndex, usize>;

    closed spec fn view(&self) -> Map<ValidatorIndex, usize> {
        self.counts@
    }
}

impl RewardLedger {
    /// A ledger without rewards.
    pub fn new() -> (l: RewardLedger)
        ensures
            l@ == Map::<ValidatorIndex, usize>::empty(),
    {
        RewardLedger { counts: HashMap::new() }
    }

    /// Forgets every reward.
    pub fn clear(&mut self)
        ensures
            final(self)@ == Map::<ValidatorIndex, usize>::empty(),
    {
        self.counts.clear();
    }

    /// The number of rewards recorded for `v`.
    pub fn count(&self, v: ValidatorIndex) -> (c: usize)
        ensures
            c as nat == reward_count(self@, v),
            self@.contains_key(v) ==> c == self@[v],
            !self@.contains_key(v) ==> c == 0,
    {
        match self.counts.get(&v) {
            Some(c) => *c,
            None => 0,
        }
    }

    /// Records one reward for each entry of `validators`; a validator listed
    /// twice gets two.
    pub fn reward(&mut self, validators: &Vec<ValidatorIndex>)
        requires
            forall|v: ValidatorIndex|
                reward_count(old(self)@, v) + occurrences(validators@, v) <= usize::MAX,
        ensures
            forall|v: ValidatorIndex|
                #![trigger reward_count(final(self)@, v)]
                reward_count(final(self)@, v) == reward_count(old(self)@, v) + occurrences(validators@, v),
            forall|v: ValidatorIndex|
                #![trigger final(self)@.contains_key(v)]
                final(self)@.contains_key(v) <==> (old(self)@.contains_key(v) || validators@.contains(v)),
    {
        let n = validators.len();
        for i in 0..n
            invariant
                n == validators@.len(),
                forall|v: ValidatorIndex|
                    reward_count(old(self)@, v) + occurrences(validators@, v) <= usize::MAX,
                forall|v: ValidatorIndex|
                    #![trigger reward_count(self@, v)]
                    reward_count(self@, v) == reward_count(old(self)@, v) + occurrences(validators@.take(i as int), v),
                forall|v: ValidatorIndex|
                    #![trigger self@.contains_key(v)]
                    self@.contains_key(v) <==> (old(self)@.contains_key(v) || validators@.take(i as int).contains(v)),
        {
            let v = validators[i];
            let ghost prev = self@;
            let ghost before = validators@.take(i as int);
            let ghost after = validators@.take(i + 1);
            proof {
                assert(after =~= before.push(v));
                assert(after.drop_last() =~= before);
                lemma_occurrences_prefix(validators@, i + 1, v);
                assert(reward_count(old(self)@, v) + occurrences(validators@, v) <= usize::MAX);
                assert(reward_count(prev, v) == reward_count(old(self)@, v) + occurrences(before, v));
            }
            let c: usize = match self.counts.get(&v) {
                Some(c) => *c,
                None => 0,
            };
            assert(c == reward_count(prev, v));
            self.counts.insert(v, c + 1);
            proof {
                assert(self@ == prev.insert(v, (c + 1) as usize));
                assert forall|w: ValidatorIndex| #![trigger reward_count(self@, w)]
                    reward_count(self@, w) == reward_count(old(self)@, w) + occurrences(after, w) by {
                    assert(reward_count(prev, w) == reward_count(old(self)@, w) + occurrences(before, w));
                }
                assert forall|w: ValidatorIndex| #![trigger self@.contains_key(w)]
                    self@.contains_key(w) <==> (old(self)@.contains_key(w) || after.contains(w)) by {
                    assert(prev.contains_key(w) <==> (old(self)@.contains_key(w) || before.contains(w)));
                    if before.contains(w) {
                        let k = choose|k: int| 0 <= k < before.len() && #[trigger] before[k] == w;
                        assert(after[k] == w);
                    }
                    if after.contains(w) && w != v {
                        let k = choose|k: int| 0 <= k < after.len() && #[trigger] after[k] == w;
                        assert(before[k] == w);
                    }
                    if w == v {
                        assert(after[i as int] == w);
                    }
                }
            }
        }
        assert(validators@.take(n as int) =~= validators@);
    }
}

/// Rewarding one list and then another records the same counts as rewarding
/// their concatenation at once.
pub proof fn lemma_rewards_compose(
    before: Map<ValidatorIndex, usize>,
    first: Seq<ValidatorIndex>,
    second: Seq<ValidatorIndex>,
    v: ValidatorIndex,
)
    ensures
        reward_count(before, v) + occurrences(first, v) + occurrences(second, v)
            == reward_count(before, v) + occurrences(first + second, v),
{
    lemma_occurrences_concat(first, second, v);
}

/// The reward counters of the relay chain's inclusion module: one ledger for
/// backing candidates and one for availability bitfields.
pub struct TestRewardValidators {
    pub backing: RewardLedger,
    pub availability: RewardLedger,
}

impl TestRewardValidators {
    /// Both ledgers empty.
    pub fn new() -> (r: TestRewardValidators)
        ensures
            r.backing@ == Map::<ValidatorIndex, usize>::empty(),
            r.availability@ == Map::<ValidatorIndex, usize>::empty(),
    {
        TestRewardValidators { backing: RewardLedger::new(), availability: RewardLedger::new() }
    }

    /// Empties both ledgers, as a fresh test externality does.
    pub fn clear(&mut self)
        ensures
            final(self).backing@ == Map::<ValidatorIndex, usize>::empty(),
            final(self).availability@ == Map::<ValidatorIndex, usize>::empty(),
    {
        self.backing.clear();
        self.availability.clear();
    }

    /// Rewards each listed validator once for backing a candidate.
    pub fn reward_backing(&mut self, validators: &Vec<ValidatorIndex>)
        requires
            forall|v: ValidatorIndex|
                reward_count(old(self).backing@, v) + occurrences(validators@, v) <= usize::MAX,
        ensures
            forall|v: ValidatorIndex|
                #![trigger reward_count(final(self).backing@, v)]
                reward_count(final(self).backing@, v) == reward_count(old(self).backing@, v)
                    + occurrences(validators@, v),
            forall|v: ValidatorIndex|
                #![trigger final(self).backing@.contains_key(v)]
                final(self).backing@.contains_key(v) <==> (old(self).backing@.contains_key(v)
                    || validators@.contains(v)),
            final(self).availability@ == old(self).availability@,
    {
        self.backing.reward(validators);
    }

    /// Rewards each listed validator once for an availability bitfield.
    pub fn reward_bitfields(&mut self, validators: &Vec<ValidatorIndex>)
        requires
            forall|v: ValidatorIndex|
                reward_count(old(self).availability@, v) + occurrences(validators@, v) <= usize::MAX,
        ensures
            forall|v: ValidatorIndex|
                #![trigger reward_count(final(self).availability@, v)]
                reward_count(final(self).availability@, v) == reward_count(old(self).availability@, v)
                    + occurrences(validators@, v),
            forall|v: ValidatorIndex|
                #![trigger final(self).availability@.contains_key(v)]
                final(self).availability@.contains_key(v) <==> (old(self).availability@.contains_key(v)
                    || validators@.contains(v)),
            final(self).backing@ == old(self).backing@,
    {
        self.availability.reward(validators);
    }
}

} // verus!
