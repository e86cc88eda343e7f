use testify::decimal::{digit_of, digit_str, parse_decimal, parse_unsigned, to_decimal};

#[test]
fn numbers_are_written_in_decimal() {
    assert_eq!(to_decimal(0), "0");
    assert_eq!(to_decimal(7), "7");
    assert_eq!(to_decimal(10), "10");
    assert_eq!(to_decimal(1024), "1024");
    assert_eq!(to_decimal(u128::MAX), "340282366920938463463374607431768211455");
}

#[test]
fn decimal_text_is_read_back() {
    assert_eq!(parse_decimal("0"), Some(0));
    assert_eq!(parse_decimal("007"), Some(7));
    assert_eq!(parse_decimal("1024"), Some(1024));
    assert_eq!(parse_decimal("340282366920938463463374607431768211455"), Some(u128::MAX));
    for n in [0u128, 9, 10, 99, 100, 12345678901234567890, u128::MAX] {
        assert_eq!(parse_decimal(&to_decimal(n)), Some(n));
    }
}

#[test]
fn what_is_no_number_is_not_read() {
    assert_eq!(parse_decimal(""), None);
    assert_eq!(parse_decimal("-1"), None);
    assert_eq!(parse_decimal("+1"), None);
    assert_eq!(parse_decimal("1 "), None);
    assert_eq!(parse_decimal("12a"), None);
    assert_eq!(parse_decimal("１"), None);
}

#[test]
fn a_number_that_is_too_large_is_not_read() {
    assert_eq!(parse_decimal("340282366920938463463374607431768211456"), None);
    assert_eq!(parse_decimal("3402823669209384634633746074317682114550"), None);
    assert_eq!(parse_decimal("999999999999999999999999999999999999999999"), None);
}

#[test]
fn digits_go_both_ways() {
    for d in 0..10u8 {
        let text = digit_str(d);
        assert_eq!(text.len(), 1);
        assert_eq!(digit_of(text.chars().next().unwrap()), Some(d));
    }
    assert_eq!(digit_of('a'), None);
    assert_eq!(digit_of('/'), None);
    assert_eq!(digit_of(':'), None);
}

#[test]
fn an_unsigned_number_may_have_a_plus_sign() {
    assert_eq!(parse_unsigned("12"), Some(12));
    assert_eq!(parse_unsigned("+12"), Some(12));
    assert_eq!(parse_unsigned("+"), None);
    assert_eq!(parse_unsigned("-12"), None);
    assert_eq!(parse_unsigned("1+2"), None);
    assert_eq!(parse_unsigned(""), None);
}
