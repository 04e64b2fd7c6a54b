use transcode_pipeline::numstr::{parse_milli, parse_usize, u64_to_string, usize_to_string};

#[test]
fn renders_decimals() {
    assert_eq!(u64_to_string(0), "0");
    assert_eq!(u64_to_string(7), "7");
    assert_eq!(u64_to_string(10), "10");
    assert_eq!(u64_to_string(1234567890), "1234567890");
    assert_eq!(u64_to_string(u64::MAX), "18446744073709551615");
    assert_eq!(usize_to_string(42), "42");
}

#[test]
fn parses_unsigned_integers() {
    assert_eq!(parse_usize("0"), Some(0));
    assert_eq!(parse_usize("123"), Some(123));
    assert_eq!(parse_usize("+123"), Some(123));
    assert_eq!(parse_usize("18446744073709551615"), Some(usize::MAX));
}

#[test]
fn rejects_bad_unsigned_integers() {
    assert_eq!(parse_usize(""), None);
    assert_eq!(parse_usize("+"), None);
    assert_eq!(parse_usize("12a"), None);
    assert_eq!(parse_usize("-1"), None);
    assert_eq!(parse_usize("1.5"), None);
    // one past the largest representable value
    assert_eq!(parse_usize("18446744073709551616"), None);
}

#[test]
fn parses_decimals_as_thousandths() {
    assert_eq!(parse_milli("24"), Some(24000));
    assert_eq!(parse_milli("24.0"), Some(24000));
    assert_eq!(parse_milli("23.976"), Some(23976));
    assert_eq!(parse_milli("0.5"), Some(500));
    assert_eq!(parse_milli("1."), Some(1000));
    assert_eq!(parse_milli("+2.25"), Some(2250));
    // digits past the third fractional place are dropped
    assert_eq!(parse_milli("1.23456"), Some(1234));
}

#[test]
fn rejects_bad_decimals() {
    assert_eq!(parse_milli(""), None);
    assert_eq!(parse_milli("."), None);
    assert_eq!(parse_milli(".5"), None);
    assert_eq!(parse_milli("1.2.3"), None);
    assert_eq!(parse_milli("abc"), None);
    assert_eq!(parse_milli("-1"), None);
}
