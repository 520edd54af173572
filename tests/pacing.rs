use isototest::pacing::{framerate_to_nanos, InvalidRate, DEFAULT_INTERVAL_NANOS};

#[test]
fn default_interval_is_twenty_milliseconds() {
    assert_eq!(framerate_to_nanos(None), Ok(20_000_000));
    assert_eq!(DEFAULT_INTERVAL_NANOS, 20_000_000);
}

#[test]
fn zero_or_negative_rate_is_refused() {
    assert_eq!(framerate_to_nanos(Some(0)), Err(InvalidRate));
    assert_eq!(framerate_to_nanos(Some(-1000)), Err(InvalidRate));
    assert_eq!(framerate_to_nanos(Some(i64::MIN)), Err(InvalidRate));
}

#[test]
fn fifty_hertz_gives_twenty_milliseconds() {
    assert_eq!(framerate_to_nanos(Some(50_000)), Ok(20_000_000));
}

#[test]
fn interval_keeps_sub_second_precision() {
    assert_eq!(framerate_to_nanos(Some(3_000)), Ok(333_333_333));
    assert_eq!(framerate_to_nanos(Some(500)), Ok(2_000_000_000));
    assert_eq!(framerate_to_nanos(Some(1)), Ok(1_000_000_000_000));
    assert_eq!(framerate_to_nanos(Some(i64::MAX)), Ok(0));
}
