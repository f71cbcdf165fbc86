use notes::Timestamp;

#[test]
fn order_is_by_seconds_then_nanos() {
    let a = Timestamp::from_parts(10, 5);
    let b = Timestamp::from_parts(10, 6);
    let c = Timestamp::from_parts(11, 0);
    assert!(a.is_no_later_than(&b));
    assert!(!b.is_no_later_than(&a));
    assert!(b.is_no_later_than(&c));
    assert!(a.is_no_later_than(&a));
}

#[test]
fn latest_picks_later() {
    let a = Timestamp::from_parts(10, 5);
    let b = Timestamp::from_parts(9, 999);
    assert_eq!(a.latest(b), a);
    assert_eq!(b.latest(a), a);
}

#[test]
fn stored_or_falls_back() {
    let fallback = Timestamp::from_parts(3, 0);
    let stored = Timestamp::from_parts(1, 2);
    assert_eq!(Timestamp::stored_or(Some(stored), fallback), stored);
    assert_eq!(Timestamp::stored_or(None, fallback), fallback);
}

#[test]
fn now_is_after_epoch() {
    let now = Timestamp::now();
    assert!(now.seconds > 1_600_000_000);
    assert!(now.nanos < 1_000_000_000);
}
