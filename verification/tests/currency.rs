use xnft_mock::config::{
    base_delivery_fee, COLLECTION_DEPOSIT, ITEM_DEPOSIT, METADATA_DEPOSIT_BASE,
    TRANSACTION_BYTE_FEE,
};
use xnft_mock::currency::{deposit, CENTS, DOLLARS, MILLICENTS};

#[test]
fn balance_units() {
    assert_eq!(MILLICENTS, 1_000_000_000);
    assert_eq!(CENTS, 1_000_000_000_000);
    assert_eq!(DOLLARS, 100_000_000_000_000);
}

#[test]
fn deposit_of_nothing_is_zero() {
    assert_eq!(deposit(0, 0), 0);
}

#[test]
fn deposit_per_item_and_per_byte() {
    assert_eq!(deposit(1, 0), 15 * CENTS);
    assert_eq!(deposit(0, 1), 6 * CENTS);
    assert_eq!(deposit(2, 3), 48_000_000_000_000);
}

#[test]
fn deposit_is_additive() {
    assert_eq!(deposit(3, 5) + deposit(4, 7), deposit(7, 12));
}

#[test]
fn deposit_of_largest_inputs() {
    assert_eq!(deposit(u32::MAX, u32::MAX), 90_194_313_195_000_000_000_000);
}

#[test]
fn fee_parameters() {
    assert_eq!(base_delivery_fee(), 3_000_000_000_000);
    assert_eq!(TRANSACTION_BYTE_FEE, 10_000_000_000);
    assert_eq!(COLLECTION_DEPOSIT, 100 * DOLLARS);
    assert_eq!(ITEM_DEPOSIT, DOLLARS);
    assert_eq!(METADATA_DEPOSIT_BASE, 10 * DOLLARS);
}
