use tail_url::decimal::{decimal, parse_decimal};

#[test]
fn decimal_writes_single_digits() {
    let digits = ["0", "1", "2", "3", "4", "5", "6", "7", "8", "9"];
    for (value, text) in digits.iter().enumerate() {
        assert_eq!(decimal(value as u64), *text);
    }
}

#[test]
fn decimal_writes_longer_numbers_without_leading_zero() {
    assert_eq!(decimal(10), "10");
    assert_eq!(decimal(99), "99");
    assert_eq!(decimal(100), "100");
    assert_eq!(decimal(1050), "1050");
    assert_eq!(decimal(1234567890), "1234567890");
    assert_eq!(decimal(u64::MAX), "18446744073709551615");
}

#[test]
fn parse_decimal_reads_numerals() {
    assert_eq!(parse_decimal("0"), Some(0));
    assert_eq!(parse_decimal("7"), Some(7));
    assert_eq!(parse_decimal("1000"), Some(1000));
    assert_eq!(parse_decimal("007"), Some(7));
    assert_eq!(parse_decimal("18446744073709551615"), Some(u64::MAX));
}

#[test]
fn parse_decimal_refuses_what_is_no_numeral() {
    assert_eq!(parse_decimal(""), None);
    assert_eq!(parse_decimal("+5"), None);
    assert_eq!(parse_decimal("-5"), None);
    assert_eq!(parse_decimal(" 5"), None);
    assert_eq!(parse_decimal("5 "), None);
    assert_eq!(parse_decimal("12a"), None);
    assert_eq!(parse_decimal("1.5"), None);
    assert_eq!(parse_decimal("0x10"), None);
    assert_eq!(parse_decimal("\u{0661}\u{0662}"), None);
    assert_eq!(parse_decimal("1\u{00e9}"), None);
}

#[test]
fn parse_decimal_refuses_numbers_above_the_largest() {
    assert_eq!(parse_decimal("18446744073709551616"), None);
    assert_eq!(parse_decimal("18446744073709551620"), None);
    assert_eq!(parse_decimal("99999999999999999999"), None);
    assert_eq!(parse_decimal("184467440737095516150"), None);
    assert_eq!(parse_decimal("000000000000000000000000000001"), Some(1));
}

#[test]
fn parse_decimal_reads_back_what_decimal_writes() {
    for value in [0u64, 1, 9, 10, 11, 99, 100, 65535, 4294967296, u64::MAX - 1, u64::MAX] {
        assert_eq!(parse_decimal(&decimal(value)), Some(value));
    }
}
