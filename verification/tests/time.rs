use hypatia::time::{assume_positive_instant, Duration, Instant, TryFromStdError};

#[test]
fn instant_micros_roundtrip() {
    let i = Instant::from_timestamp_micros(1234);
    assert_eq!(i.timestamp_nanos(), 1_234_000);
    assert_eq!(i.timestamp_micros(), 1234);
    assert_eq!(Instant::from_timestamp_nanos(1999).timestamp_micros(), 1);
}

#[test]
fn instant_spans() {
    let a = Instant::from_timestamp_nanos(100);
    let b = Instant::from_timestamp_nanos(250);
    assert_eq!(b.duration_since(a).as_nanos(), 150);
    assert_eq!(a.time_until(b), b.duration_since(a));
    assert_eq!(b.checked_duration_since(a), Some(Duration::from_nanos(150)));
    assert_eq!(a.checked_duration_since(b), None);
    assert_eq!(a.checked_time_until(b), Some(Duration::from_nanos(150)));
    assert_eq!(b.checked_time_until(a), None);
    assert_eq!(a.checked_duration_since(a), Some(Duration::from_nanos(0)));
}

#[test]
fn duration_units() {
    assert_eq!(Duration::from_secs(3).as_nanos(), 3_000_000_000);
    assert_eq!(Duration::from_millis(1500).as_secs(), 1);
    assert_eq!(Duration::from_millis(1500).as_millis(), 1500);
    assert_eq!(Duration::from_micros(2500).as_millis(), 2);
    assert_eq!(Duration::from_micros(2500).as_micros(), 2500);
    assert_eq!(Duration::from_secs(u32::MAX).as_secs(), u32::MAX as u64);
    assert_eq!(Duration::default().as_nanos(), 0);
}

#[test]
fn duration_std_conversions() {
    let d = Duration::from_nanos(123_456_789_012);
    let s = d.into_std();
    assert_eq!(s, std::time::Duration::from_nanos(123_456_789_012));
    assert_eq!(Duration::try_from_std(s).unwrap(), d);
    assert_eq!(Duration::wrapping_from_std(s), d);
    let huge = std::time::Duration::from_secs(u64::MAX);
    assert!(matches!(Duration::try_from_std(huge), Err(TryFromStdError)));
    assert_eq!(
        Duration::wrapping_from_std(huge).as_nanos(),
        (huge.as_nanos() % (1u128 << 64)) as u64
    );
    let just_over = std::time::Duration::from_nanos(u64::MAX) + std::time::Duration::from_nanos(1);
    assert!(Duration::try_from_std(just_over).is_err());
    assert_eq!(Duration::wrapping_from_std(just_over).as_nanos(), 0);
    assert_eq!(
        TryFromStdError.message(),
        "Overflow while converting an std Duration to a mpv Duration"
    );
}

#[test]
fn positive_instant() {
    assert_eq!(assume_positive_instant(42), 42);
}

#[test]
fn instants_and_durations_order_by_nanoseconds() {

    let a = Instant::from_timestamp_nanos(5);
    let b = Instant::from_timestamp_nanos(7);
    assert!(a < b);
    assert!(a <= a);
    assert!(b > a);
    assert_eq!(a.partial_cmp(&b), Some(std::cmp::Ordering::Less));
    assert!(Duration::from_millis(1) > Duration::from_micros(999));
    assert_eq!(Duration::from_secs(1).partial_cmp(&Duration::from_millis(1000)), Some(std::cmp::Ordering::Equal));
}
