use watch_cycle::config::effective_interval;
use watch_cycle::record::Timestamp;
use watch_cycle::timing::{
    elapsed_between, fixed_pause, precise_pause, NANOS_PER_MILLI, POLL_TICK_NANOS,
};

#[test]
fn constants_are_a_millisecond_and_a_second() {
    assert_eq!(NANOS_PER_MILLI, 1_000_000);
    assert_eq!(POLL_TICK_NANOS, 1_000_000_000);
}

#[test]
fn live_interval_wins_over_the_configured_one() {
    assert_eq!(effective_interval(Some(500), 2000), 500);
    assert_eq!(effective_interval(Some(0), 2000), 0);
}

#[test]
fn configured_interval_governs_without_override() {
    assert_eq!(effective_interval(None, 2000), 2000);
}

#[test]
fn fixed_pause_is_the_whole_interval() {
    assert_eq!(fixed_pause(2000), 2_000_000_000);
    assert_eq!(fixed_pause(0), 0);
    assert_eq!(fixed_pause(u64::MAX), u64::MAX as u128 * 1_000_000);
}

#[test]
fn precise_pause_is_the_rest_of_the_interval() {
    assert_eq!(precise_pause(2000, 0), 2_000_000_000);
    assert_eq!(precise_pause(2000, 500_000_000), 1_500_000_000);
    assert_eq!(precise_pause(2000, 1_999_999_999), 1);
}

#[test]
fn precise_pause_is_nothing_after_an_overrun() {
    assert_eq!(precise_pause(2000, 2_000_000_000), 0);
    assert_eq!(precise_pause(2000, 7_000_000_000), 0);
    assert_eq!(precise_pause(0, 0), 0);
    assert_eq!(precise_pause(2000, i128::MAX), 0);
}

#[test]
fn precise_pause_grows_when_the_clock_ran_backwards() {
    assert_eq!(precise_pause(2000, -1_000_000_000), 3_000_000_000);
    assert_eq!(precise_pause(0, -1), 1);
    assert_eq!(precise_pause(0, i128::MIN), 1u128 << 127);
}

#[test]
fn elapsed_time_is_counted_in_nanoseconds() {
    let start = Timestamp { secs: 10, nanos: 900_000_000 };
    let now = Timestamp { secs: 12, nanos: 100_000_000 };
    assert_eq!(elapsed_between(start, now), 1_200_000_000);
    assert_eq!(elapsed_between(now, start), -1_200_000_000);
    assert_eq!(elapsed_between(start, start), 0);
}

#[test]
fn elapsed_time_spans_the_whole_range_of_readings() {
    let first = Timestamp { secs: i64::MIN, nanos: u32::MAX };
    let last = Timestamp { secs: i64::MAX, nanos: 0 };
    let span = (i64::MAX as i128 - i64::MIN as i128) * 1_000_000_000 - u32::MAX as i128;
    assert_eq!(elapsed_between(first, last), span);
}
