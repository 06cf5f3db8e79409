use xnft_mock::registration::{sudo_establish_hrmp_channel, AcceptChannelRequest, OpenChannelRequest};
use xnft_mock::events::compared_event_indices;
use xnft_mock::registration::register_parachain_with_balance;
use xnft_mock::accounts::para_account;
use xnft_mock::relay_mock::{
    discovery_authorities, initializer_initialize, ChannelInfo, ChannelStatus,
    FoolIdentificationOf, MockValidatorSet, TestNextSessionRotation, ValidatorIdOf, Weight,
};

#[test]
fn channels_are_ready() {
    assert_eq!(ChannelInfo::get_channel_status(2000), ChannelStatus::Ready(10, 10));
}

#[test]
fn session_rotation_estimates() {
    assert_eq!(TestNextSessionRotation::average_session_length(), 10);
    assert_eq!(TestNextSessionRotation::estimate_current_session_progress(5), (None, Weight::zero()));
    assert_eq!(TestNextSessionRotation::estimate_next_session_rotation(5), (None, Weight::zero()));
    assert_eq!(initializer_initialize(3), Weight::from_parts(0, 0));
}

#[test]
fn validator_set_and_identities() {
    assert_eq!(MockValidatorSet::session_index(), 0);
    assert!(MockValidatorSet::validators().is_empty());
    assert_eq!(ValidatorIdOf::convert([9u8; 32]), Some([9u8; 32]));
    assert_eq!(FoolIdentificationOf::convert([9u8; 32]), Some(()));
}

#[test]
fn discovery_authorities_are_copied() {
    let registered = vec![[1u8; 32], [2u8; 32]];
    assert_eq!(discovery_authorities(&registered), registered);
    assert!(discovery_authorities(&Vec::new()).is_empty());
}

#[test]
fn event_comparison_aligns_ends() {
    assert_eq!(compared_event_indices(5, 3), vec![(2, 0), (3, 1), (4, 2)]);
    assert_eq!(compared_event_indices(2, 4), vec![(0, 2), (1, 3)]);
    assert_eq!(compared_event_indices(3, 3), vec![(0, 0), (1, 1), (2, 2)]);
    assert!(compared_event_indices(0, 3).is_empty());
}

#[test]
fn parachain_registration() {
    let reg = register_parachain_with_balance(2000, 1_000_000).unwrap();
    assert_eq!(reg.para_id, 2000);
    assert!(reg.is_parachain);
    assert_eq!(reg.genesis_head, vec![1u8]);
    assert_eq!(reg.validation_code, vec![1u8]);
    assert_eq!(reg.account, para_account(2000));
    assert_eq!(reg.free_balance, 1_000_000);
}

#[test]
fn parachain_registration_balance_limit() {
    assert!(register_parachain_with_balance(2001, u64::MAX as u128).is_some());
    assert!(register_parachain_with_balance(2001, u64::MAX as u128 + 1).is_none());
}

#[test]
fn hrmp_channel_is_opened_then_accepted() {
    let (open, accept) = sudo_establish_hrmp_channel(2000, 2001, 8, 1024);
    assert_eq!(open, OpenChannelRequest { sender: 2000, recipient: 2001, max_capacity: 8, max_message_size: 1024 });
    assert_eq!(accept, AcceptChannelRequest { recipient: 2001, sender: 2000 });
}
