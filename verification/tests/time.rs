use minecraft_rs::authentication::utils::time::Timestamp;

#[test]
fn instants_are_ordered_by_seconds_then_nanos() {
    let a = Timestamp::new(10, 5);
    let b = Timestamp::new(10, 6);
    let c = Timestamp::new(11, 0);
    let d = Timestamp::new(-1, 999);
    assert!(a.is_before(&b) && b.is_before(&c) && a.is_before(&c) && d.is_before(&a));
    assert!(!b.is_before(&a) && !a.is_before(&a));
    assert!(a.is_at_or_before(&a) && a.is_at_or_before(&b) && !b.is_at_or_before(&a));
    assert_eq!(Timestamp::new(3, 4), Timestamp { seconds: 3, nanos: 4 });
}

#[test]
fn has_reached_compares_with_the_moved_start() {
    let start = Timestamp::new(100, 500);
    assert!(!Timestamp::new(104, 999).has_reached(&start, 5));
    assert!(!Timestamp::new(105, 499).has_reached(&start, 5));
    assert!(Timestamp::new(105, 500).has_reached(&start, 5));
    assert!(Timestamp::new(106, 0).has_reached(&start, 5));
    assert!(Timestamp::new(100, 500).has_reached(&start, 0));
    assert!(Timestamp::new(95, 500).has_reached(&start, -5));
    // no overflow, however far the start is moved
    assert!(!Timestamp::new(i64::MAX, 0).has_reached(&Timestamp::new(i64::MAX, 0), i64::MAX));
    assert!(Timestamp::new(i64::MIN, 0).has_reached(&Timestamp::new(i64::MIN, 0), i64::MIN));
}

#[test]
fn checked_add_seconds_moves_the_seconds_only() {
    assert_eq!(Timestamp::new(1_700_000_000, 123).checked_add_seconds(86400), Some(Timestamp::new(1_700_086_400, 123)));
    assert_eq!(Timestamp::new(10, 1).checked_add_seconds(-20), Some(Timestamp::new(-10, 1)));
    assert_eq!(Timestamp::new(i64::MAX, 0).checked_add_seconds(0), Some(Timestamp::new(i64::MAX, 0)));
    assert_eq!(Timestamp::new(i64::MAX, 0).checked_add_seconds(1), None);
    assert_eq!(Timestamp::new(i64::MIN, 0).checked_add_seconds(-1), None);
    assert_eq!(Timestamp::new(1, 0).checked_add_seconds(i64::MAX), None);
}
