use test_utils::FanoutTracker;

#[test]
fn fanout_of_zero_is_complete() {
    assert!(FanoutTracker::new(0).all_complete());
}

#[test]
fn fanout_completes_in_any_order() {
    let mut t = FanoutTracker::new(3);
    assert_eq!(t.len(), 3);
    assert!(t.complete(2));
    assert!(!t.all_complete());
    assert!(t.complete(0));
    assert!(!t.complete(0));
    assert!(!t.all_complete());
    assert!(t.complete(1));
    assert!(t.all_complete());
}
