use multitask::epoch::RunEpoch;

#[test]
fn epoch_starts_at_zero() {
    let epoch = RunEpoch::new();
    assert_eq!(epoch.current(), 0);
    assert!(epoch.can_advance());
}

#[test]
fn advance_returns_the_new_epoch() {
    let mut epoch = RunEpoch::new();
    assert_eq!(epoch.advance(), 1);
    assert_eq!(epoch.advance(), 2);
    assert_eq!(epoch.current(), 2);
}

#[test]
fn only_the_current_epoch_is_current() {
    let mut epoch = RunEpoch::new();
    epoch.advance();
    assert!(epoch.is_current(1));
    assert!(!epoch.is_current(0));
    assert!(!epoch.is_current(2));
}
