//! Logs of the validators that disputes reward and punish, one entry per
//! reported outcome, in the order the outcomes were reported.

use vstd::prelude::*;
use crate::rewards::{SessionIndex, ValidatorIndex};

verus! {

/// The validators that one dispute outcome names, with their session.
pub struct SessionRecord {
    pub session: SessionIndex,
    pub validators: Vec<ValidatorIndex>,
}

/// A record as a session and the sequence of its validators.
pub open spec fn record_view(r: SessionRecord) -> (SessionIndex, Seq<ValidatorIndex>) {
    (r.session, r.validators@)
}

/// A log as the sequence of its records.
pub open spec fn log_view(log: Seq<SessionRecord>) -> Seq<(SessionIndex, Seq<ValidatorIndex>)> {
    log.map_values(|r: SessionRecord| record_view(r))
}

/// The four dispute logs of the relay chain.
pub struct DisputeLogs {
    /// Validators rewarded for a dispute statement.
    pub reward_validators: Vec<SessionRecord>,
    /// Validators that lost a dispute about an invalid candidate.
    pub punish_validators_for: Vec<SessionRecord>,
    /// Validators that lost a dispute about a valid candidate.
    pub punish_validators_against: Vec<SessionRecord>,
    /// Validators that backed a candidate found invalid.
    pub punish_backers_for: Vec<SessionRecord>,
}

/// The four logs as sequences of (session, validators) entries.
pub ghost struct DisputeLogsView {
    pub reward_validators: Seq<(SessionIndex, Seq<ValidatorIndex>)>,
    pub punish_validators_for: Seq<(SessionIndex, Seq<ValidatorIndex>)>,
    pub punish_validators_against: Seq<(SessionIndex, Seq<ValidatorIndex>)>,
    pub punish_backers_for: Seq<(SessionIndex, Seq<ValidatorIndex>)>,
}

impl View for DisputeLogs {
    type V = DisputeLogsView;

    open spec fn view(&self) -> DisputeLogsView {
        DisputeLogsView {
            reward_validators: log_view(self.reward_validators@),
            punish_validators_for: log_view(self.punish_validators_for@),
            punish_validators_against: log_view(self.punish_validators_against@),
            punish_backers_for: log_view(self.punish_backers_for@),
        }
    }
}

impl DisputeLogs {
    /// Four empty logs.
    pub fn new() -> (l: DisputeLogs)
        ensures
            l@.reward_validators == Seq::<(SessionIndex, Seq<ValidatorIndex>)>::empty(),
            l@.punish_validators_for == Seq::<(SessionIndex, Seq<ValidatorIndex>)>::empty(),
            l@.punish_validators_against == Seq::<(SessionIndex, Seq<ValidatorIndex>)>::empty(),
            l@.punish_backers_for == Seq::<(SessionIndex, Seq<ValidatorIndex>)>::empty(),
    {
        let l = DisputeLogs {
            reward_validators: Vec::new(),
            punish_validators_for: Vec::new(),
            punish_validators_against: Vec::new(),
            punish_backers_for: Vec::new(),
        };
        assert(l@.reward_validators =~= Seq::<(SessionIndex, Seq<ValidatorIndex>)>::empty());
        assert(l@.punish_validators_for =~= Seq::<(SessionIndex, Seq<ValidatorIndex>)>::empty());
        assert(l@.punish_validators_against =~= Seq::<(SessionIndex, Seq<ValidatorIndex>)>::empty());
        assert(l@.punish_backers_for =~= Seq::<(SessionIndex, Seq<ValidatorIndex>)>::empty());
        l
    }

    /// Records the validators rewarded for a dispute statement in `session`.
    pub fn reward_dispute_statement(&mut self, session: SessionIndex, validators: Vec<ValidatorIndex>)
        ensures
            final(self)@.reward_validators == old(self)@.reward_validators.push((session, validators@)),
            final(self)@.punish_validators_for == old(self)@.punish_validators_for,
            final(self)@.punish_validators_against == old(self)@.punish_validators_against,
            final(self)@.punish_backers_for == old(self)@.punish_backers_for,
    {
        push_record(&mut self.reward_validators, session, validators);
    }

    /// Records the losers and the backers of a dispute about an invalid
    /// candidate of `session`.
    pub fn punish_for_invalid(
        &mut self,
        session: SessionIndex,
        candidate_hash: [u8; 32],
        losers: Vec<ValidatorIndex>,
        backers: Vec<ValidatorIndex>,
    )
        ensures
            final(self)@.reward_validators == old(self)@.reward_validators,
            final(self)@.punish_validators_for == old(self)@.punish_validators_for.push((session, losers@)),
            final(self)@.punish_validators_against == old(self)@.punish_validators_against,
            final(self)@.punish_backers_for == old(self)@.punish_backers_for.push((session, backers@)),
    {
        push_record(&mut self.punish_validators_for, session, losers);
        push_record(&mut self.punish_backers_for, session, backers);
    }

    /// Records the losers of a dispute about a valid candidate of `session`;
    /// the backers are not recorded.
    pub fn punish_against_valid(
        &mut self,
        session: SessionIndex,
        candidate_hash: [u8; 32],
        losers: Vec<ValidatorIndex>,
        backers: Vec<ValidatorIndex>,
    )
        ensures
            final(self)@.reward_validators == old(self)@.reward_validators,
            final(self)@.punish_validators_for == old(self)@.punish_validators_for,
            final(self)@.punish_validators_against == old(self)@.punish_validators_against.push((session, losers@)),
            final(self)@.punish_backers_for == old(self)@.punish_backers_for,
    {
        push_record(&mut self.punish_validators_against, session, losers);
    }
}

/// Appends one record to a log.
fn push_record(log: &mut Vec<SessionRecord>, session: SessionIndex, validators: Vec<ValidatorIndex>)
    ensures
        log_view(final(log)@) == log_view(old(log)@).push((session, validators@)),
{
    let ghost vs = validators@;
    log.push(SessionRecord { session, validators });
    assert(log_view(log@) =~= log_view(old(log)@).push((session, vs)));
}

} // verus!
