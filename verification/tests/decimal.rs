use cargo_pkg_info_struct_builder::decimal::parse_decimal;
use cargo_pkg_info_struct_builder::decimal::u64_to_decimal;

#[test]
fn u64_to_decimal_writes_without_leading_zeros() {
    assert_eq!(u64_to_decimal(0), "0");
    assert_eq!(u64_to_decimal(7), "7");
    assert_eq!(u64_to_decimal(10), "10");
    assert_eq!(u64_to_decimal(1_739_000_000), "1739000000");
    assert_eq!(u64_to_decimal(u64::MAX), "18446744073709551615");
}

#[test]
fn parse_decimal_reads_digits_with_or_without_a_plus() {
    assert_eq!(parse_decimal("0", u64::MAX), Some(0));
    assert_eq!(parse_decimal("42", u64::MAX), Some(42));
    assert_eq!(parse_decimal("+42", u64::MAX), Some(42));
    assert_eq!(parse_decimal("007", u64::MAX), Some(7));
    assert_eq!(
        parse_decimal("18446744073709551615", u64::MAX),
        Some(u64::MAX)
    );
}

#[test]
fn parse_decimal_refuses_everything_else() {
    assert_eq!(parse_decimal("", u64::MAX), None);
    assert_eq!(parse_decimal("+", u64::MAX), None);
    assert_eq!(parse_decimal("-1", u64::MAX), None);
    assert_eq!(parse_decimal(" 1", u64::MAX), None);
    assert_eq!(parse_decimal("1 ", u64::MAX), None);
    assert_eq!(parse_decimal("1.5", u64::MAX), None);
    assert_eq!(parse_decimal("++1", u64::MAX), None);
    assert_eq!(parse_decimal("beta", u64::MAX), None);
    assert_eq!(parse_decimal("٣", u64::MAX), None);
}

#[test]
fn parse_decimal_refuses_what_does_not_fit() {
    assert_eq!(parse_decimal("18446744073709551616", u64::MAX), None);
    assert_eq!(parse_decimal("99999999999999999999999", u64::MAX), None);
    assert_eq!(parse_decimal("4294967295", 4_294_967_295), Some(4_294_967_295));
    assert_eq!(parse_decimal("4294967296", 4_294_967_295), None);
    assert_eq!(parse_decimal("10", 9), None);
    assert_eq!(parse_decimal("9", 9), Some(9));
    assert_eq!(parse_decimal("0", 0), Some(0));
    assert_eq!(parse_decimal("1", 0), None);
}

#[test]
fn parse_decimal_agrees_with_std_on_samples() {
    let texts = ["", "+", "0", "+0", "-0", "12", "0012", "4294967295", "4294967296", "1e3", "١"];
    for text in texts {
        assert_eq!(
            parse_decimal(text, u32::MAX as u64),
            text.parse::<u32>().ok().map(u64::from)
        );
        assert_eq!(parse_decimal(text, u64::MAX), text.parse::<u64>().ok());
    }
}

#[test]
fn decimal_round_trip() {
    for n in [0, 1, 9, 10, 99, 100, 1_739_000_000, u64::MAX - 1, u64::MAX] {
        assert_eq!(parse_decimal(&u64_to_decimal(n), u64::MAX), Some(n));
    }
}
