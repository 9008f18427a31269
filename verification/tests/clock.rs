use ssm_monitor::clock::{
    format_elapsed, format_relative, format_relative_at, now_secs, secs_elapsed, secs_or_zero,
    secs_since,
};

#[test]
fn relative_times_use_the_largest_full_unit() {
    let now = 1_000_000;
    let ago = |secs: i64| format_relative_at(now - secs, now);
    assert_eq!(ago(0), "0s ago");
    assert_eq!(ago(59), "59s ago");
    assert_eq!(ago(60), "1m ago");
    assert_eq!(ago(3599), "59m ago");
    assert_eq!(ago(3600), "1h ago");
    assert_eq!(ago(86399), "23h ago");
    assert_eq!(ago(86400), "1d ago");
    assert_eq!(ago(10 * 86400 + 5), "10d ago");
}

#[test]
fn a_time_ahead_is_in_the_future() {
    assert_eq!(format_relative_at(101, 100), "in the future");
}

#[test]
fn a_difference_beyond_the_range_wraps_around() {
    assert_eq!(secs_since(i64::MIN, 0), i64::MIN);
    assert_eq!(format_relative_at(i64::MIN, 0), "in the future");
    assert_eq!(secs_since(-1, i64::MAX), i64::MIN);
}

#[test]
fn elapsed_times_end_at_hours() {
    assert_eq!(format_elapsed(0), "0s ago");
    assert_eq!(format_elapsed(59), "59s ago");
    assert_eq!(format_elapsed(60), "1m ago");
    assert_eq!(format_elapsed(3599), "59m ago");
    assert_eq!(format_elapsed(3600), "1h ago");
    assert_eq!(format_elapsed(200_000), "55h ago");
}

#[test]
fn elapsed_seconds_are_full_seconds() {
    assert_eq!(secs_elapsed(0, 999_999_999), 0);
    assert_eq!(secs_elapsed(500, 1_000_000_500), 1);
    assert_eq!(secs_elapsed(10, 5), 0);
}

#[test]
fn a_clock_before_the_epoch_reads_zero() {
    assert_eq!(secs_or_zero(None), 0);
    assert_eq!(secs_or_zero(Some(7)), 7);
}

#[test]
fn the_system_clock_stands_after_the_year_2020() {
    assert!(now_secs() > 1_577_836_800);
}

#[test]
fn a_relative_time_goes_by_the_system_clock() {
    assert_eq!(format_relative(now_secs() - 2 * 86400 - 100), "2d ago");
    assert_eq!(format_relative(now_secs() + 1000), "in the future");
}
