use pbjson_build::decimal::{decimal_string, parse_decimal};

#[test]
fn decimal_of_small_numbers() {
    assert_eq!(decimal_string(0), "0");
    assert_eq!(decimal_string(7), "7");
    assert_eq!(decimal_string(10), "10");
    assert_eq!(decimal_string(-5), "-5");
    assert_eq!(decimal_string(1234567890), "1234567890");
}

#[test]
fn decimal_of_extremes() {
    assert_eq!(decimal_string(i64::MIN as i128), "-9223372036854775808");
    assert_eq!(decimal_string(i64::MAX as i128), "9223372036854775807");
    assert_eq!(decimal_string(u64::MAX as i128), "18446744073709551615");
    assert_eq!(
        decimal_string(i128::MIN),
        "-170141183460469231731687303715884105728"
    );
    assert_eq!(
        decimal_string(i128::MAX),
        "170141183460469231731687303715884105727"
    );
}

#[test]
fn decimal_agrees_with_the_standard_library() {
    for n in [-1000i128, -99, -10, -9, -1, 0, 1, 9, 10, 11, 99, 100, 101, 65535, 4294967296] {
        assert_eq!(decimal_string(n), n.to_string());
    }
}

#[test]
fn parse_reads_signs_and_leading_zeros() {
    let (min, max) = (i64::MIN as i128, i64::MAX as i128);
    assert_eq!(parse_decimal("0", min, max), Some(0));
    assert_eq!(parse_decimal("42", min, max), Some(42));
    assert_eq!(parse_decimal("-42", min, max), Some(-42));
    assert_eq!(parse_decimal("+42", min, max), Some(42));
    assert_eq!(parse_decimal("007", min, max), Some(7));
    assert_eq!(parse_decimal("-0", min, max), Some(0));
    assert_eq!(parse_decimal("-0012", min, max), Some(-12));
}

#[test]
fn parse_rejects_what_is_no_integer() {
    let (min, max) = (i64::MIN as i128, i64::MAX as i128);
    assert_eq!(parse_decimal("", min, max), None);
    assert_eq!(parse_decimal("-", min, max), None);
    assert_eq!(parse_decimal("+", min, max), None);
    assert_eq!(parse_decimal("12a", min, max), None);
    assert_eq!(parse_decimal("a12", min, max), None);
    assert_eq!(parse_decimal("1 2", min, max), None);
    assert_eq!(parse_decimal(" 12", min, max), None);
    assert_eq!(parse_decimal("--1", min, max), None);
    assert_eq!(parse_decimal("+-1", min, max), None);
    assert_eq!(parse_decimal("1.5", min, max), None);
    assert_eq!(parse_decimal("RED", min, max), None);
    assert_eq!(parse_decimal("\u{0663}", min, max), None);
}

#[test]
fn parse_holds_the_range() {
    assert_eq!(parse_decimal("2147483647", i32::MIN as i128, i32::MAX as i128), Some(2147483647));
    assert_eq!(parse_decimal("2147483648", i32::MIN as i128, i32::MAX as i128), None);
    assert_eq!(parse_decimal("-2147483648", i32::MIN as i128, i32::MAX as i128), Some(-2147483648));
    assert_eq!(parse_decimal("-2147483649", i32::MIN as i128, i32::MAX as i128), None);
    assert_eq!(parse_decimal("-1", 0, u64::MAX as i128), None);
    assert_eq!(
        parse_decimal("18446744073709551615", 0, u64::MAX as i128),
        Some(u64::MAX as i128)
    );
    assert_eq!(parse_decimal("18446744073709551616", 0, u64::MAX as i128), None);
    assert_eq!(parse_decimal("5", 6, 9), None);
    assert_eq!(parse_decimal("9", 6, 9), Some(9));
}

#[test]
fn parse_of_the_widest_numbers() {
    assert_eq!(
        parse_decimal("170141183460469231731687303715884105727", i128::MIN, i128::MAX),
        Some(i128::MAX)
    );
    assert_eq!(
        parse_decimal("170141183460469231731687303715884105728", i128::MIN, i128::MAX),
        None
    );
    assert_eq!(
        parse_decimal("-170141183460469231731687303715884105728", i128::MIN, i128::MAX),
        Some(i128::MIN)
    );
    assert_eq!(
        parse_decimal("-170141183460469231731687303715884105729", i128::MIN, i128::MAX),
        None
    );
    assert_eq!(
        parse_decimal("99999999999999999999999999999999999999999999999999", i128::MIN, i128::MAX),
        None
    );
    assert_eq!(
        parse_decimal("00000000000000000000000000000000000000000000000000012", i128::MIN, i128::MAX),
        Some(12)
    );
}

#[test]
fn parse_reads_back_what_decimal_writes() {
    for n in [i64::MIN as i128, -1, 0, 1, 10, 12345, i64::MAX as i128, u64::MAX as i128] {
        assert_eq!(parse_decimal(&decimal_string(n), i128::MIN, i128::MAX), Some(n));
    }
}
