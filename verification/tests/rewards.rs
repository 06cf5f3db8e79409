use xnft_mock::disputes::DisputeLogs;
use xnft_mock::rewards::{RewardLedger, TestRewardValidators};

#[test]
fn backing_rewards_count_each_listing() {
    let mut r = TestRewardValidators::new();
    r.reward_backing(&vec![1, 2, 1]);
    assert_eq!(r.backing.count(1), 2);
    assert_eq!(r.backing.count(2), 1);
    assert_eq!(r.backing.count(3), 0);
    assert_eq!(r.availability.count(1), 0);
}

#[test]
fn bitfield_rewards_leave_backing_alone() {
    let mut r = TestRewardValidators::new();
    r.reward_backing(&vec![5]);
    r.reward_bitfields(&vec![5, 5, 6]);
    assert_eq!(r.backing.count(5), 1);
    assert_eq!(r.availability.count(5), 2);
    assert_eq!(r.availability.count(6), 1);
}

#[test]
fn rewards_accumulate_across_calls() {
    let mut a = RewardLedger::new();
    a.reward(&vec![1, 2]);
    a.reward(&vec![2, 3]);
    let mut b = RewardLedger::new();
    b.reward(&vec![1, 2, 2, 3]);
    for v in 0..5 {
        assert_eq!(a.count(v), b.count(v));
    }
}

#[test]
fn clearing_forgets_rewards() {
    let mut r = TestRewardValidators::new();
    r.reward_backing(&vec![1]);
    r.reward_bitfields(&vec![2]);
    r.clear();
    assert_eq!(r.backing.count(1), 0);
    assert_eq!(r.availability.count(2), 0);
}

#[test]
fn dispute_outcomes_are_logged() {
    let mut l = DisputeLogs::new();
    l.reward_dispute_statement(3, vec![1, 2]);
    l.punish_for_invalid(4, [0u8; 32], vec![7], vec![8, 9]);
    l.punish_against_valid(5, [0u8; 32], vec![10], vec![11]);
    assert_eq!(l.reward_validators.len(), 1);
    assert_eq!(l.reward_validators[0].session, 3);
    assert_eq!(l.reward_validators[0].validators, vec![1, 2]);
    assert_eq!(l.punish_validators_for.len(), 1);
    assert_eq!(l.punish_validators_for[0].session, 4);
    assert_eq!(l.punish_validators_for[0].validators, vec![7]);
    assert_eq!(l.punish_backers_for.len(), 1);
    assert_eq!(l.punish_backers_for[0].validators, vec![8, 9]);
    assert_eq!(l.punish_validators_against.len(), 1);
    assert_eq!(l.punish_validators_against[0].session, 5);
    assert_eq!(l.punish_validators_against[0].validators, vec![10]);
}
