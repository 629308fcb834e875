use repoman::clock::{current_time, Timestamp, MAX_SECS, MIN_SECS};

#[test]
fn test_timestamp_new_checks_the_range() {
    assert!(Timestamp::new(0, 0).is_some());
    assert!(Timestamp::new(0, 999_999_999).is_some());
    assert!(Timestamp::new(0, 1_000_000_000).is_none());
    assert!(Timestamp::new(MAX_SECS, 999_999_999).is_some());
    assert!(Timestamp::new(MAX_SECS + 1, 0).is_none());
    assert!(Timestamp::new(MIN_SECS, 0).is_some());
    assert!(Timestamp::new(MIN_SECS - 1, 0).is_none());
    assert!(Timestamp::from_secs(i64::MAX).is_none());
    assert_eq!(Timestamp::from_secs(5), Timestamp::new(5, 0));
}

#[test]
fn test_timestamp_parts() {
    let t = Timestamp::new(-3, 250).unwrap();
    assert_eq!(t.secs(), -3);
    assert_eq!(t.nanos(), 250);
    assert_eq!(t.total_nanos(), -2_999_999_750);
    assert_eq!(Timestamp::epoch().total_nanos(), 0);
}

#[test]
fn test_timestamp_order() {
    let a = Timestamp::new(10, 5).unwrap();
    let b = Timestamp::new(10, 6).unwrap();
    let c = Timestamp::new(11, 0).unwrap();
    assert!(a.is_before(&b) && b.is_before(&c) && a.is_before(&c));
    assert!(c.is_after(&a));
    assert!(!a.is_before(&a) && !a.is_after(&a));
}

#[test]
fn test_seconds_since_rounds_towards_zero() {
    let a = Timestamp::new(100, 0).unwrap();
    let b = Timestamp::new(103, 999_999_999).unwrap();
    assert_eq!(b.seconds_since(&a), 3);
    assert_eq!(a.seconds_since(&b), -3);
    let c = Timestamp::new(104, 0).unwrap();
    assert_eq!(c.seconds_since(&a), 4);
    assert_eq!(a.seconds_since(&c), -4);
    assert_eq!(a.seconds_since(&a), 0);
    let lo = Timestamp::new(MIN_SECS, 0).unwrap();
    let hi = Timestamp::new(MAX_SECS, 999_999_999).unwrap();
    assert_eq!(hi.seconds_since(&lo), MAX_SECS - MIN_SECS);
    assert_eq!(lo.seconds_since(&hi), MIN_SECS - MAX_SECS);
}

#[test]
fn test_days_since_rounds_towards_zero() {
    let a = Timestamp::new(0, 0).unwrap();
    let b = Timestamp::new(86_400 * 30, 0).unwrap();
    assert_eq!(b.days_since(&a), 30);
    assert_eq!(a.days_since(&b), -30);
    let c = Timestamp::new(86_400 * 30 - 1, 999_999_999).unwrap();
    assert_eq!(c.days_since(&a), 29);
    assert_eq!(a.days_since(&c), -29);
}

#[test]
fn test_format_is_that_of_the_calendar() {
    let t = Timestamp::new(947_638_923, 4_000_000).unwrap();
    assert_eq!(t.format_minute(), "2000-01-12 01:02");
    assert_eq!(t.format_second(), "2000-01-12 01:02:03 UTC");
    assert_eq!(Timestamp::epoch().format_second(), "1970-01-01 00:00:00 UTC");
    let before = Timestamp::new(-1, 0).unwrap();
    assert_eq!(before.format_second(), "1969-12-31 23:59:59 UTC");
    // the ends of the range are within the calendar
    assert_eq!(Timestamp::new(MAX_SECS, 0).unwrap().format_minute(), "+262142-12-31 23:59");
    assert!(Timestamp::new(MIN_SECS, 0).unwrap().format_minute().starts_with("-262143-01-0"));
}

#[test]
fn test_current_time_is_now() {
    let a = current_time();
    let b = current_time();
    assert!(!b.is_before(&a));
    assert!(a.secs() > 1_577_836_800);
    assert!(a.nanos() < 1_000_000_000);
}
