use iota_sdk_bindings_core::numeric::{format_u64, parse_u64};

#[test]
fn format_zero() {
    assert_eq!(format_u64(0), "0");
}

#[test]
fn format_single_digit() {
    assert_eq!(format_u64(7), "7");
}

#[test]
fn format_many_digits() {
    assert_eq!(format_u64(1234567890), "1234567890");
}

#[test]
fn format_largest() {
    assert_eq!(format_u64(u64::MAX), "18446744073709551615");
}

#[test]
fn parse_zero() {
    assert_eq!(parse_u64("0"), Some(0));
}

#[test]
fn parse_plain() {
    assert_eq!(parse_u64("4000"), Some(4000));
}

#[test]
fn parse_with_plus() {
    assert_eq!(parse_u64("+42"), Some(42));
}

#[test]
fn parse_leading_zeros() {
    assert_eq!(parse_u64("007"), Some(7));
}

#[test]
fn parse_largest() {
    assert_eq!(parse_u64("18446744073709551615"), Some(u64::MAX));
}

#[test]
fn parse_overflow() {
    assert_eq!(parse_u64("18446744073709551616"), None);
}

#[test]
fn parse_far_too_large() {
    assert_eq!(parse_u64("99999999999999999999999"), None);
}

#[test]
fn parse_empty() {
    assert_eq!(parse_u64(""), None);
}

#[test]
fn parse_plus_alone() {
    assert_eq!(parse_u64("+"), None);
}

#[test]
fn parse_trailing_garbage() {
    assert_eq!(parse_u64("12a"), None);
}

#[test]
fn parse_negative() {
    assert_eq!(parse_u64("-1"), None);
}

#[test]
fn parse_inner_space() {
    assert_eq!(parse_u64(" 1"), None);
}

#[test]
fn parse_non_ascii_digits() {
    assert_eq!(parse_u64("١٢"), None);
}

#[test]
fn round_trip_through_text() {
    for n in [0u64, 1, 9, 10, 99, 1000000, u64::MAX - 1, u64::MAX] {
        assert_eq!(parse_u64(&format_u64(n)), Some(n));
    }
}
