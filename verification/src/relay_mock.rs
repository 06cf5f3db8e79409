//! Fixed answers of the relay chain's mock providers: channel status, session
//! rotation estimates, the validator set, identity conversions and the
//! discovery authorities.

use vstd::prelude::*;
use crate::accounts::AccountId;
use crate::mock_assigner::ParaId;
use crate::rewards::SessionIndex;

verus! {

/// Block number of the relay chain.
pub type BlockNumber = u32;

/// A weight: computation time and proof size.
#[derive(Clone, Copy, Debug, PartialEq, Eq, Structural)]
pub struct Weight {
    pub ref_time: u64,
    pub proof_size: u64,
}

impl Weight {
    /// The weight of the given parts.
    pub fn from_parts(ref_time: u64, proof_size: u64) -> (w: Weight)
        ensures
            w.ref_time == ref_time,
            w.proof_size == proof_size,
    {
        Weight { ref_time, proof_size }
    }

    /// The zero weight.
    pub fn zero() -> (w: Weight)
        ensures
            w.ref_time == 0,
            w.proof_size == 0,
    {
        Weight { ref_time: 0, proof_size: 0 }
    }
}

/// Status of an outbound message channel.
#[derive(Clone, Copy, Debug, PartialEq, Eq, Structural)]
pub enum ChannelStatus {
    /// The channel is closed.
    Closed,
    /// The channel is full.
    Full,
    /// The channel is open: the largest message size and the largest
    /// message count it takes.
    Ready(usize, usize),
}

/// Channel information of the relay chain's message queue.
pub struct ChannelInfo;

impl ChannelInfo {
    /// Every channel is open and takes messages of up to ten bytes, ten at a
    /// time.
    pub fn get_channel_status(id: ParaId) -> (s: ChannelStatus)
        ensures
            s == ChannelStatus::Ready(10, 10),
    {
        ChannelStatus::Ready(10, 10)
    }
}

/// Session rotation estimates of the relay chain.
pub struct TestNextSessionRotation;

impl TestNextSessionRotation {
    /// A session lasts ten blocks on average.
    pub fn average_session_length() -> (n: BlockNumber)
        ensures
            n == 10,
    {
        10
    }

    /// No estimate of the current session's progress (in parts per million),
    /// at no cost.
    pub fn estimate_current_session_progress(now: BlockNumber) -> (r: (Option<u32>, Weight))
        ensures
            r.0 == None::<u32>,
            r.1 == Weight::zero_spec(),
    {
        (None, Weight::zero())
    }

    /// No estimate of the next rotation's block, at no cost.
    pub fn estimate_next_session_rotation(now: BlockNumber) -> (r: (Option<BlockNumber>, Weight))
        ensures
            r.0 == None::<BlockNumber>,
            r.1 == Weight::zero_spec(),
    {
        (None, Weight::zero())
    }
}

impl Weight {
    /// The zero weight, in specifications.
    pub open spec fn zero_spec() -> Weight {
        Weight { ref_time: 0, proof_size: 0 }
    }
}

/// Maps an account to its validator id: the account itself.
pub struct ValidatorIdOf;

impl ValidatorIdOf {
    /// Every account is its own validator id.
    pub fn convert(a: AccountId) -> (r: Option<AccountId>)
        ensures
            r == Some(a),
    {
        Some(a)
    }
}

/// The relay chain's validator set: no validators, in session zero.
pub struct MockValidatorSet;

impl MockValidatorSet {
    /// The current session is always session zero.
    pub fn session_index() -> (s: SessionIndex)
        ensures
            s == 0,
    {
        0
    }

    /// The validator set is empty.
    pub fn validators() -> (v: Vec<AccountId>)
        ensures
            v@ == Seq::<AccountId>::empty(),
    {
        Vec::new()
    }
}

/// Identifies every account with the unit identification.
pub struct FoolIdentificationOf;

impl FoolIdentificationOf {
    /// Every account has the unit identification.
    pub fn convert(a: AccountId) -> (r: Option<()>)
        ensures
            r == Some(()),
    {
        Some(())
    }
}

/// The cost of the initializer hook of the slashing handler: nothing.
pub fn initializer_initialize(now: BlockNumber) -> (w: Weight)
    ensures
        w == Weight::zero_spec(),
{
    Weight::zero()
}

/// An authority discovery key: 32 bytes.
pub type AuthorityDiscoveryId = [u8; 32];

/// The registered discovery authorities, in order.
pub fn discovery_authorities(registered: &Vec<AuthorityDiscoveryId>) -> (v: Vec<AuthorityDiscoveryId>)
    ensures
        v@ == registered@,
{
    let mut v: Vec<AuthorityDiscoveryId> = Vec::new();
    let n = registered.len();
    for i in 0..n
        invariant
            n == registered@.len(),
            v@ == registered@.take(i as int),
    {
        v.push(registered[i]);
        assert(registered@.take(i + 1) =~= registered@.take(i as int).push(registered@[i as int]));
    }
    assert(registered@.take(n as int) =~= registered@);
    v
}

} // verus!
