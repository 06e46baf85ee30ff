use users_api::path::{parse_id, parse_id_str};

#[test]
fn reads_plain_digits() {
    assert_eq!(parse_id_str("1"), Some(1));
    assert_eq!(parse_id_str("0"), Some(0));
    assert_eq!(parse_id_str("4096"), Some(4096));
    assert_eq!(parse_id_str("007"), Some(7));
}

#[test]
fn reads_leading_plus() {
    assert_eq!(parse_id_str("+42"), Some(42));
    assert_eq!(parse_id_str("+"), None);
    assert_eq!(parse_id_str("++1"), None);
}

#[test]
fn refuses_non_numeric() {
    assert_eq!(parse_id_str("abc"), None);
    assert_eq!(parse_id_str(""), None);
    assert_eq!(parse_id_str("12a"), None);
    assert_eq!(parse_id_str("-1"), None);
    assert_eq!(parse_id_str(" 1"), None);
    assert_eq!(parse_id_str("1.0"), None);
    assert_eq!(parse_id_str("١"), None);
}

#[test]
fn largest_id_and_overflow() {
    assert_eq!(parse_id_str("18446744073709551615"), Some(u64::MAX));
    assert_eq!(parse_id_str("18446744073709551616"), None);
    assert_eq!(parse_id_str("99999999999999999999"), None);
    assert_eq!(parse_id_str("99999999999999999999x"), None);
}

#[test]
fn reads_bytes() {
    assert_eq!(parse_id(b"123"), Some(123));
    assert_eq!(parse_id(b"12 3"), None);
}
