//! Balance units of the test network and the storage deposit formula.

use vstd::prelude::*;

verus! {

/// Balance type of the relay chain and the parachains.
pub type Balance = u128;

/// One thousandth of a cent.
pub const MILLICENTS: u128 = 1_000_000_000;

/// One cent.
pub const CENTS: u128 = 1_000 * MILLICENTS;

/// One dollar.
pub const DOLLARS: u128 = 100 * CENTS;

/// Deposit owed for storing `items` items that take `bytes` bytes:
/// fifteen cents per item and six cents per byte.
pub open spec fn spec_deposit(items: int, bytes: int) -> int {
    items * 15 * CENTS + bytes * 6 * CENTS
}

/// Storage deposit for `items` items of `bytes` bytes in total.
pub fn deposit(items: u32, bytes: u32) -> (r: Balance)
    ensures
        r == spec_deposit(items as int, bytes as int),
{
    assert(items * 15 * CENTS <= 0xffff_ffff * 15 * CENTS) by (nonlinear_arith)
        requires
            items <= 0xffff_ffff,
    ;
    assert(bytes * 6 * CENTS <= 0xffff_ffff * 6 * CENTS) by (nonlinear_arith)
        requires
            bytes <= 0xffff_ffff,
    ;
    (items as Balance) * 15 * CENTS + (bytes as Balance) * 6 * CENTS
}

/// The deposit is additive: storing two batches costs what storing their
/// union costs.
pub proof fn lemma_deposit_additive(i1: int, b1: int, i2: int, b2: int)
    ensures
        spec_deposit(i1, b1) + spec_deposit(i2, b2) == spec_deposit(i1 + i2, b1 + b2),
{
    assert(spec_deposit(i1, b1) + spec_deposit(i2, b2) == spec_deposit(i1 + i2, b1 + b2))
        by (nonlinear_arith);
}

/// The deposit never decreases when more items or more bytes are stored.
pub proof fn lemma_deposit_monotonic(i1: int, b1: int, i2: int, b2: int)
    requires
        0 <= i1 <= i2,
        0 <= b1 <= b2,
    ensures
        spec_deposit(i1, b1) <= spec_deposit(i2, b2),
{
    assert(spec_deposit(i1, b1) <= spec_deposit(i2, b2)) by (nonlinear_arith)
        requires
            0 <= i1 <= i2,
            0 <= b1 <= b2,
    ;
}

} // verus!
