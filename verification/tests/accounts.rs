use polkadot_parachain_primitives::primitives::{Id, Sibling};
use sp_runtime::traits::AccountIdConversion;
use sp_runtime::AccountId32;
use xnft_mock::accounts::{
    alice, bob, charlie, dave, para_account, root_user, sibling_a_account, sibling_account,
    sibling_b_account, who, Origin, INITIAL_BALANCE, PARA_A_ID, PARA_B_ID,
};

fn expected(tag: &[u8; 4], id: u32) -> [u8; 32] {
    let mut bytes = [0u8; 32];
    bytes[..4].copy_from_slice(tag);
    bytes[4..8].copy_from_slice(&id.to_le_bytes());
    bytes
}

#[test]
fn sibling_a_account_is_sibl_2000() {
    let a = sibling_a_account();
    let mut want = [0u8; 32];
    want[0] = b's';
    want[1] = b'i';
    want[2] = b'b';
    want[3] = b'l';
    want[4] = 0xd0;
    want[5] = 0x07;
    assert_eq!(a, want);
}

#[test]
fn sibling_b_account_is_sibl_2001() {
    assert_eq!(sibling_b_account(), expected(b"sibl", 2001));
    assert_ne!(sibling_a_account(), sibling_b_account());
}

#[test]
fn sibling_accounts_match_parachain_primitives() {
    for id in [0u32, 1, 2000, 2001, 100, 0xdead_beef, u32::MAX] {
        let real: AccountId32 = Sibling::from(id).into_account_truncating();
        let real_bytes: [u8; 32] = real.into();
        assert_eq!(sibling_account(id), real_bytes);
        assert_eq!(sibling_account(id), expected(b"sibl", id));
    }
}

#[test]
fn para_accounts_match_parachain_primitives() {
    for id in [0u32, 2000, 2001, 0x0102_0304, u32::MAX] {
        let real: AccountId32 = Id::from(id).into_account_truncating();
        let real_bytes: [u8; 32] = real.into();
        assert_eq!(para_account(id), real_bytes);
        assert_eq!(para_account(id), expected(b"para", id));
        assert_ne!(para_account(id), sibling_account(id));
    }
}

#[test]
fn network_para_ids() {
    assert_eq!(PARA_A_ID, 2000);
    assert_eq!(PARA_B_ID, 2001);
    assert_eq!(sibling_a_account(), sibling_account(PARA_A_ID));
    assert_eq!(sibling_b_account(), sibling_account(PARA_B_ID));
}

#[test]
fn user_accounts() {
    assert_eq!(alice(), [0u8; 32]);
    assert_eq!(bob(), [1u8; 32]);
    assert_eq!(charlie(), [1u8; 32]);
    assert_eq!(dave(), [1u8; 32]);
    assert_eq!(INITIAL_BALANCE, 1_000_000_000);
}

#[test]
fn origins() {
    assert!(matches!(root_user(), Origin::Root));
    match who(bob()) {
        Origin::Signed(a) => assert_eq!(a, [1u8; 32]),
        Origin::Root => panic!("expected a signed origin"),
    }
}
