//! The fixed parameters and balances that the transfer scenarios start from.

use vstd::prelude::*;
use crate::accounts::{
    alice, bob, sibling_a_account, sibling_account_bytes, sibling_b_account, uniform_account,
    AccountId, INITIAL_BALANCE, PARA_A_ID, PARA_B_ID,
};

verus! {

/// Parameters of a single-NFT transfer scenario.
pub struct TestSetup {
    pub collection_id: u32,
    pub dest_collection_id: u32,
    pub item_id: u32,
    pub dest_item_id: u32,
    pub sibling_account1: AccountId,
    pub sibling_account2: AccountId,
}

/// Parameters of a multi-NFT transfer scenario.
pub struct MultiTestSetup {
    pub collection_id: u32,
    pub dest_collection_id: u32,
    pub item_id: Vec<u32>,
    pub dest_item_id: Vec<u32>,
    pub sibling_account1: AccountId,
    pub sibling_account2: AccountId,
}

/// Collection 0 and item 0 on both chains; both sibling accounts are the
/// first parachain's sovereign account.
pub fn initialize_param() -> (s: TestSetup)
    ensures
        s.collection_id == 0,
        s.dest_collection_id == 0,
        s.item_id == 0,
        s.dest_item_id == 0,
        s.sibling_account1@ == sibling_account_bytes(PARA_A_ID),
        s.sibling_account2@ == sibling_account_bytes(PARA_A_ID),
{
    TestSetup {
        collection_id: 0,
        dest_collection_id: 0,
        item_id: 0,
        dest_item_id: 0,
        sibling_account1: sibling_a_account(),
        sibling_account2: sibling_a_account(),
    }
}

/// Collection 0 and items 0, 1 and 2 on both chains; both sibling accounts
/// are the first parachain's sovereign account.
pub fn multi_initialize_param() -> (s: MultiTestSetup)
    ensures
        s.collection_id == 0,
        s.dest_collection_id == 0,
        s.item_id@ == seq![0u32, 1u32, 2u32],
        s.dest_item_id@ == seq![0u32, 1u32, 2u32],
        s.sibling_account1@ == sibling_account_bytes(PARA_A_ID),
        s.sibling_account2@ == sibling_account_bytes(PARA_A_ID),
{
    let s = MultiTestSetup {
        collection_id: 0,
        dest_collection_id: 0,
        item_id: vec![0, 1, 2],
        dest_item_id: vec![0, 1, 2],
        sibling_account1: sibling_a_account(),
        sibling_account2: sibling_a_account(),
    };
    assert(s.item_id@ =~= seq![0u32, 1u32, 2u32]);
    assert(s.dest_item_id@ =~= seq![0u32, 1u32, 2u32]);
    s
}

/// Balances on the relay chain at genesis: `INITIAL_BALANCE` for `alice`.
pub fn relay_genesis_balances() -> (b: Vec<(AccountId, u64)>)
    ensures
        b@.len() == 1,
        b@[0].0@ == uniform_account(0),
        b@[0].1 == INITIAL_BALANCE,
{
    vec![(alice(), INITIAL_BALANCE)]
}

/// The balances that the scenarios deposit on the relay chain before they
/// start: a quadrillion units for the first parachain's sovereign account and
/// a trillion each for the second parachain's sovereign account, `alice` and
/// `bob`.
pub fn scenario_deposits() -> (d: Vec<(AccountId, u64)>)
    ensures
        d@.len() == 4,
        d@[0].0@ == sibling_account_bytes(PARA_A_ID),
        d@[0].1 == 1_000_000_000_000_000u64,
        d@[1].0@ == sibling_account_bytes(PARA_B_ID),
        d@[1].1 == 1_000_000_000_000u64,
        d@[2].0@ == uniform_account(0),
        d@[2].1 == 1_000_000_000_000u64,
        d@[3].0@ == uniform_account(1),
        d@[3].1 == 1_000_000_000_000u64,
{
    vec![
        (sibling_a_account(), 1_000_000_000_000_000u64),
        (sibling_b_account(), 1_000_000_000_000u64),
        (alice(), 1_000_000_000_000u64),
        (bob(), 1_000_000_000_000u64),
    ]
}

} // verus!
