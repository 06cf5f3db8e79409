use xnft_mock::accounts::{alice, bob, sibling_a_account, sibling_b_account, INITIAL_BALANCE};
use xnft_mock::setup::{initialize_param, multi_initialize_param, relay_genesis_balances, scenario_deposits};

#[test]
fn single_transfer_parameters() {
    let s = initialize_param();
    assert_eq!(s.collection_id, 0);
    assert_eq!(s.dest_collection_id, 0);
    assert_eq!(s.item_id, 0);
    assert_eq!(s.dest_item_id, 0);
    assert_eq!(s.sibling_account1, sibling_a_account());
    assert_eq!(s.sibling_account2, sibling_a_account());
}

#[test]
fn multi_transfer_parameters() {
    let s = multi_initialize_param();
    assert_eq!(s.collection_id, 0);
    assert_eq!(s.dest_collection_id, 0);
    assert_eq!(s.item_id, vec![0, 1, 2]);
    assert_eq!(s.dest_item_id, vec![0, 1, 2]);
    assert_eq!(s.sibling_account1, sibling_a_account());
    assert_eq!(s.sibling_account2, sibling_a_account());
}

#[test]
fn relay_genesis() {
    assert_eq!(relay_genesis_balances(), vec![(alice(), INITIAL_BALANCE)]);
}

#[test]
fn scenario_balances() {
    assert_eq!(
        scenario_deposits(),
        vec![
            (sibling_a_account(), 1_000_000_000_000_000),
            (sibling_b_account(), 1_000_000_000_000),
            (alice(), 1_000_000_000_000),
            (bob(), 1_000_000_000_000),
        ]
    );
}
