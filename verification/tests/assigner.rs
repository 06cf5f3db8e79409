use xnft_mock::mock_assigner::{Assignment, Pallet, DEFAULT_CORE_COUNT};

#[test]
fn assignments_come_out_in_order() {
    let mut p = Pallet::new();
    p.add_test_assignment(Assignment::Bulk(2000));
    p.add_test_assignment(Assignment::Pool { para_id: 2001, core_index: 3 });
    p.add_test_assignment(Assignment::Bulk(7));
    assert_eq!(p.pop_assignment_for_core(9), Some(Assignment::Bulk(2000)));
    assert_eq!(p.pop_assignment_for_core(0), Some(Assignment::Pool { para_id: 2001, core_index: 3 }));
    assert_eq!(p.pop_assignment_for_core(1), Some(Assignment::Bulk(7)));
    assert_eq!(p.pop_assignment_for_core(1), None);
}

#[test]
fn empty_queue_pops_nothing() {
    let mut p = Pallet::new();
    assert_eq!(p.pop_assignment_for_core(0), None);
    assert_eq!(p.pop_assignment_for_core(0), None);
    assert!(p.queued().is_empty());
}

#[test]
fn add_after_pop_keeps_order() {
    let mut p = Pallet::from_parts(vec![Assignment::Bulk(1), Assignment::Bulk(2)], None);
    assert_eq!(p.pop_assignment_for_core(0), Some(Assignment::Bulk(1)));
    p.add_test_assignment(Assignment::Bulk(3));
    assert_eq!(p.queued(), vec![Assignment::Bulk(2), Assignment::Bulk(3)]);
}

#[test]
fn core_count_defaults_to_five() {
    let p = Pallet::new();
    assert_eq!(DEFAULT_CORE_COUNT, 5);
    assert_eq!(p.session_core_count(), 5);
    assert_eq!(p.core_count(), None);
}

#[test]
fn core_count_set_by_test() {
    let mut p = Pallet::new();
    p.set_core_count(7);
    assert_eq!(p.session_core_count(), 7);
    p.set_core_count(0);
    assert_eq!(p.session_core_count(), 0);
    assert_eq!(p.core_count(), Some(0));
}

#[test]
fn mock_assignment_is_bulk() {
    assert_eq!(Pallet::get_mock_assignment(4, 2001), Assignment::Bulk(2001));
}
