use spaceapi_dezentrale_server::time::{
    TimeSpan, Timestamp, MAX_NANOS, NANOS_PER_MILLI, NANOS_PER_SEC,
};

#[test]
fn the_units_are_nanoseconds() {
    assert_eq!(NANOS_PER_SEC, 1_000_000_000);
    assert_eq!(NANOS_PER_MILLI, 1_000_000);
    assert_eq!(MAX_NANOS, u64::MAX as u128 * 1_000_000_000 + 999_999_999);
}

#[test]
fn spans_from_seconds_and_milliseconds_agree() {
    assert_eq!(TimeSpan::from_secs(300), TimeSpan::from_millis(300_000));
    assert_eq!(TimeSpan::from_secs(300).as_secs(), 300);
    assert_eq!(TimeSpan::from_millis(100).as_secs(), 0);
    assert_eq!(TimeSpan::from_millis(100).as_millis(), 100);
    assert_eq!(TimeSpan::from_millis(100).subsec_nanos(), 100_000_000);
    assert_eq!(TimeSpan::from_millis(1_500).as_secs(), 1);
    assert_eq!(TimeSpan::from_millis(1_500).subsec_nanos(), 500_000_000);
}

#[test]
fn the_longest_spans_fit() {
    assert_eq!(TimeSpan::from_secs(u64::MAX).as_secs(), u64::MAX);
    assert_eq!(TimeSpan::from_secs(u64::MAX).subsec_nanos(), 0);
    assert_eq!(TimeSpan::from_millis(u64::MAX).as_millis(), u64::MAX as u128);
    assert_eq!(TimeSpan::from_millis(u64::MAX).as_secs(), u64::MAX / 1_000);
}

#[test]
fn new_carries_nanoseconds_into_seconds() {
    let span = TimeSpan::new(1, 2_500_000_000).unwrap();
    assert_eq!(span.as_secs(), 3);
    assert_eq!(span.subsec_nanos(), 500_000_000);
    assert_eq!(TimeSpan::new(0, 0).unwrap(), TimeSpan::from_secs(0));
}

#[test]
fn new_refuses_what_does_not_fit() {
    assert!(TimeSpan::new(u64::MAX, 999_999_999).is_some());
    assert!(TimeSpan::new(u64::MAX, 1_000_000_000).is_none());
}

#[test]
fn a_timestamp_and_its_span_since_the_epoch_convert_both_ways() {
    let span = TimeSpan::new(1_700_000_000, 42).unwrap();
    let instant = Timestamp::from_unix(span);
    assert_eq!(instant.since_unix(), span);
    assert_eq!(instant.as_secs(), 1_700_000_000);
}

#[test]
fn checked_add_adds() {
    let instant = Timestamp::from_unix(TimeSpan::new(10, 999_999_999).unwrap());
    let later = instant.checked_add(TimeSpan::new(0, 1).unwrap()).unwrap();
    assert_eq!(later, Timestamp::from_unix(TimeSpan::from_secs(11)));
    assert_eq!(instant.later_by(TimeSpan::new(0, 1).unwrap()), later);
}

#[test]
fn checked_add_refuses_what_does_not_fit() {
    let last = Timestamp::from_unix(TimeSpan::new(u64::MAX, 999_999_999).unwrap());
    assert!(last.checked_add(TimeSpan::from_secs(0)).is_some());
    assert!(last.checked_add(TimeSpan::new(0, 1).unwrap()).is_none());
    let epoch = Timestamp::from_unix(TimeSpan::from_secs(0));
    assert_eq!(epoch.checked_add(last.since_unix()), Some(last));
}

#[test]
fn is_after_is_strict() {
    let early = Timestamp::from_unix(TimeSpan::from_millis(5));
    let late = Timestamp::from_unix(TimeSpan::new(0, 5_000_001).unwrap());
    assert!(late.is_after(&early));
    assert!(!early.is_after(&late));
    assert!(!early.is_after(&early));
    assert!(early < late);
}
