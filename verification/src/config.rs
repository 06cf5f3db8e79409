//! Parameters of the test network's runtimes.

use vstd::prelude::*;
use crate::currency::{Balance, CENTS, DOLLARS, MILLICENTS};

verus! {

/// Deposit for creating an NFT collection on a parachain.
pub const COLLECTION_DEPOSIT: Balance = 100 * DOLLARS;

/// Deposit for minting an NFT on a parachain.
pub const ITEM_DEPOSIT: Balance = 1 * DOLLARS;

/// Deposit for creating an asset.
pub const ASSET_DEPOSIT: Balance = 100 * DOLLARS;

/// Deposit for an approval.
pub const APPROVAL_DEPOSIT: Balance = 1 * DOLLARS;

/// Base deposit for metadata.
pub const METADATA_DEPOSIT_BASE: Balance = 10 * DOLLARS;

/// Metadata deposit per byte.
pub const METADATA_DEPOSIT_PER_BYTE: Balance = 1 * DOLLARS;

/// Longest attribute key.
pub const KEY_LIMIT: u32 = 32;

/// Longest attribute value.
pub const VALUE_LIMIT: u32 = 256;

/// Most approvals per item.
pub const APPROVALS_LIMIT: u32 = 20;

/// Most attribute approvals per item.
pub const ITEM_ATTRIBUTES_APPROVALS_LIMIT: u32 = 20;

/// Most tips per call.
pub const MAX_TIPS: u32 = 10;

/// Most attributes set in one call.
pub const MAX_ATTRIBUTES_PER_CALL: u32 = 10;

/// Longest metadata string.
pub const STRING_LIMIT: u32 = 50;

/// Smallest balance an account may hold on a parachain.
pub const EXISTENTIAL_DEPOSIT: u64 = 1;

/// Most balance locks per account.
pub const MAX_LOCKS: u32 = 10;

/// Most instructions in one XCM program.
pub const MAX_INSTRUCTIONS: u32 = 100;

/// Most assets held while executing an XCM program.
pub const MAX_ASSETS_INTO_HOLDING: u32 = 64;

/// Most assets moved by one transfer.
pub const MAX_ASSETS_FOR_TRANSFER: usize = 2;

/// Fee per byte of a delivered message, on the relay chain.
pub const TRANSACTION_BYTE_FEE: Balance = 10 * MILLICENTS;

/// Multiplier of the fee of operational transactions.
pub const OPERATIONAL_FEE_MULTIPLIER: u8 = 5;

/// Heap size of the relay chain's message queue pages.
pub const MESSAGE_QUEUE_HEAP_SIZE: u32 = 65_536;

/// Most stale pages the relay chain's message queue keeps.
pub const MESSAGE_QUEUE_MAX_STALE: u32 = 16;

/// `u128::saturating_mul` of std: the product, or the largest `u128` where
/// the product does not fit, as its documentation states.
#[verifier::external_body]
fn u128_saturating_mul(a: u128, b: u128) -> (r: u128)
    ensures
        r == (if a * b > u128::MAX { u128::MAX as int } else { a * b }),
{
    a.saturating_mul(b)
}

/// Base fee for delivering a message from the relay chain: three cents,
/// saturating at the largest balance.
pub fn base_delivery_fee() -> (fee: Balance)
    ensures
        fee == 3 * CENTS,
{
    u128_saturating_mul(CENTS, 3)
}

} // verus!
