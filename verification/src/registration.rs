//! What registering a parachain on the relay chain of the test network sets
//! up: its genesis arguments and the balance of its relay chain account.

use vstd::prelude::*;
use crate::accounts::{para_account, para_account_bytes, AccountId};

verus! {

/// Genesis arguments and funding of a parachain that the relay chain
/// registers.
pub struct ParaRegistration {
    /// The parachain's id.
    pub para_id: u32,
    /// Whether it is registered as a full parachain (not an on-demand one).
    pub is_parachain: bool,
    /// The genesis head data.
    pub genesis_head: Vec<u8>,
    /// The validation code, also added as trusted code.
    pub validation_code: Vec<u8>,
    /// The parachain's account on the relay chain.
    pub account: AccountId,
    /// The free balance that account is given.
    pub free_balance: u64,
}

/// What registering `id` with `balance` sets up: a parachain whose genesis
/// head and validation code are the single byte 1, and whose relay chain
/// account is given `balance`; `None` when `balance` does not fit the relay
/// chain's 64-bit balances, where the registration cannot proceed.
pub fn register_parachain_with_balance(id: u32, balance: u128) -> (r: Option<ParaRegistration>)
    ensures
        r is None <==> balance > u64::MAX,
        r matches Some(reg) ==> {
            &&& reg.para_id == id
            &&& reg.is_parachain
            &&& reg.genesis_head@ == seq![1u8]
            &&& reg.validation_code@ == seq![1u8]
            &&& reg.account@ == para_account_bytes(id)
            &&& reg.free_balance == balance
        },
{
    if balance > 0xffff_ffff_ffff_ffffu128 {
        return None;
    }
    let reg = ParaRegistration {
        para_id: id,
        is_parachain: true,
        genesis_head: vec![1u8],
        validation_code: vec![1u8],
        account: para_account(id),
        free_balance: balance as u64,
    };
    assert(reg.genesis_head@ =~= seq![1u8]);
    assert(reg.validation_code@ =~= seq![1u8]);
    Some(reg)
}

/// A request that `sender` opens an HRMP channel to `recipient`.
#[derive(Clone, Copy, Debug, PartialEq, Eq, Structural)]
pub struct OpenChannelRequest {
    pub sender: u32,
    pub recipient: u32,
    pub max_capacity: u32,
    pub max_message_size: u32,
}

/// `recipient`'s acceptance of the channel that `sender` opened to it.
#[derive(Clone, Copy, Debug, PartialEq, Eq, Structural)]
pub struct AcceptChannelRequest {
    pub recipient: u32,
    pub sender: u32,
}

/// The two steps that establish a channel from `sender` to `recipient` by
/// root: the sender opens it with the given limits, then the recipient
/// accepts it.
pub fn sudo_establish_hrmp_channel(
    sender: u32,
    recipient: u32,
    max_capacity: u32,
    max_message_size: u32,
) -> (steps: (OpenChannelRequest, AcceptChannelRequest))
    ensures
        steps.0 == (OpenChannelRequest { sender, recipient, max_capacity, max_message_size }),
        steps.1 == (AcceptChannelRequest { recipient, sender }),
{
    (
        OpenChannelRequest { sender, recipient, max_capacity, max_message_size },
        AcceptChannelRequest { recipient, sender },
    )
}

} // verus!
