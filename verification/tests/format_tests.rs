use std::time::Duration;
use timer_cli::format::{decimal_len, decimal_string, format_millis, push_decimal, push_zero_padded};
use timer_cli::format_duration;

#[test]
fn format_round_trip_examples() {
    assert_eq!(format_duration(Duration::from_millis(1)), "00:00:00.001");
    assert_eq!(format_duration(Duration::from_millis(10)), "00:00:00.010");
    assert_eq!(format_duration(Duration::from_millis(3_661_234)), "01:01:01.234");
}

#[test]
fn format_zero() {
    assert_eq!(format_duration(Duration::ZERO), "00:00:00.000");
    assert_eq!(format_millis(0), "00:00:00.000");
}

#[test]
fn format_truncates_below_a_millisecond() {
    assert_eq!(format_duration(Duration::from_micros(1_999)), "00:00:00.001");
    assert_eq!(format_duration(Duration::from_nanos(999_999)), "00:00:00.000");
}

#[test]
fn format_field_borders() {
    assert_eq!(format_millis(999), "00:00:00.999");
    assert_eq!(format_millis(1_000), "00:00:01.000");
    assert_eq!(format_millis(59_999), "00:00:59.999");
    assert_eq!(format_millis(60_000), "00:01:00.000");
    assert_eq!(format_millis(3_599_999), "00:59:59.999");
    assert_eq!(format_millis(3_600_000), "01:00:00.000");
}

#[test]
fn format_hours_widen_beyond_two_digits() {
    assert_eq!(format_millis(99 * 3_600_000), "99:00:00.000");
    assert_eq!(format_millis(100 * 3_600_000 + 5), "100:00:00.005");
    assert_eq!(
        format_duration(Duration::MAX),
        "5124095576030431:00:15.999"
    );
    assert_eq!(
        format_millis(u128::MAX),
        "94522879700260684295381835397713:23:31.455"
    );
}

#[test]
fn decimal_strings() {
    assert_eq!(decimal_string(0), "0");
    assert_eq!(decimal_string(7), "7");
    assert_eq!(decimal_string(10), "10");
    assert_eq!(decimal_string(1234567890), "1234567890");
    assert_eq!(decimal_string(u128::MAX), u128::MAX.to_string());
}

#[test]
fn decimal_lengths() {
    assert_eq!(decimal_len(0), 1);
    assert_eq!(decimal_len(9), 1);
    assert_eq!(decimal_len(10), 2);
    assert_eq!(decimal_len(99_999), 5);
    assert_eq!(decimal_len(u128::MAX), 39);
}

#[test]
fn push_appends_to_what_is_there() {
    let mut out = String::from("n=");
    push_decimal(&mut out, 405);
    assert_eq!(out, "n=405");
    push_zero_padded(&mut out, 7, 3);
    assert_eq!(out, "n=405007");
    push_zero_padded(&mut out, 12345, 3);
    assert_eq!(out, "n=40500712345");
    push_zero_padded(&mut out, 0, 0);
    assert_eq!(out, "n=405007123450");
}
