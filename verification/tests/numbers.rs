use style_values::decimal::write_nat;
use style_values::geometry::Au;
use style_values::keywords::keyword;
use style_values::number::{mul_div, saturate_i32, saturate_i64, CSSFloat};

fn text(number: CSSFloat) -> String {
    let mut text = String::new();
    number.to_css(&mut text);
    text
}

#[test]
fn decimal_numerals_are_read_exactly() {
    assert_eq!(CSSFloat::from_decimal("0"), Some(CSSFloat { nanos: 0 }));
    assert_eq!(CSSFloat::from_decimal("1"), Some(CSSFloat { nanos: 1_000_000_000 }));
    assert_eq!(CSSFloat::from_decimal("-12.5"), Some(CSSFloat { nanos: -12_500_000_000 }));
    assert_eq!(CSSFloat::from_decimal("0.375"), Some(CSSFloat { nanos: 375_000_000 }));
    assert_eq!(CSSFloat::from_decimal("0.000000001"), Some(CSSFloat { nanos: 1 }));
    assert_eq!(CSSFloat::from_decimal("007"), Some(CSSFloat { nanos: 7_000_000_000 }));
    assert_eq!(CSSFloat::from_decimal("-0"), Some(CSSFloat { nanos: 0 }));
}

#[test]
fn digits_beyond_the_ninth_are_dropped() {
    assert_eq!(CSSFloat::from_decimal("0.9999999999"), Some(CSSFloat { nanos: 999_999_999 }));
    assert_eq!(CSSFloat::from_decimal("-0.0000000019"), Some(CSSFloat { nanos: -1 }));
    assert_eq!(CSSFloat::from_decimal("0.0000000001"), Some(CSSFloat { nanos: 0 }));
}

#[test]
fn numerals_out_of_range_saturate() {
    assert_eq!(
        CSSFloat::from_decimal("9223372036.854775807"),
        Some(CSSFloat { nanos: i64::MAX })
    );
    assert_eq!(CSSFloat::from_decimal("9223372036.854775808"), Some(CSSFloat { nanos: i64::MAX }));
    assert_eq!(CSSFloat::from_decimal("9223372037"), Some(CSSFloat { nanos: i64::MAX }));
    assert_eq!(
        CSSFloat::from_decimal("340282350000000000000000000000000000000"),
        Some(CSSFloat { nanos: i64::MAX })
    );
    assert_eq!(
        CSSFloat::from_decimal("-9223372036.854775808"),
        Some(CSSFloat { nanos: i64::MIN })
    );
    assert_eq!(CSSFloat::from_decimal("-99999999999"), Some(CSSFloat { nanos: i64::MIN }));
}

#[test]
fn what_is_no_numeral_is_refused() {
    for text in ["", "-", ".", ".5", "5.", "1.2.3", "1e3", "+1", "inf", "NaN", "1,5", " 1", "1 ", "--1", "1.-2", "١"] {
        assert_eq!(CSSFloat::from_decimal(text), None, "{}", text);
    }
}

#[test]
fn numbers_are_written_without_needless_digits() {
    assert_eq!(text(CSSFloat { nanos: 0 }), "0");
    assert_eq!(text(CSSFloat { nanos: 1_000_000_000 }), "1");
    assert_eq!(text(CSSFloat { nanos: 1_500_000_000 }), "1.5");
    assert_eq!(text(CSSFloat { nanos: -1_500_000_000 }), "-1.5");
    assert_eq!(text(CSSFloat { nanos: 1 }), "0.000000001");
    assert_eq!(text(CSSFloat { nanos: -1 }), "-0.000000001");
    assert_eq!(text(CSSFloat { nanos: 100_000_000 }), "0.1");
    assert_eq!(text(CSSFloat { nanos: 10_000_000_000 }), "10");
    assert_eq!(text(CSSFloat { nanos: 1_050_000_000 }), "1.05");
    assert_eq!(text(CSSFloat { nanos: i64::MAX }), "9223372036.854775807");
    assert_eq!(text(CSSFloat { nanos: i64::MIN }), "-9223372036.854775808");
}

#[test]
fn a_written_number_reads_back() {
    for nanos in [0, 1, -1, 10, 999_999_999, 1_000_000_000, 1_000_000_001, -37_500_000_000, i64::MAX, i64::MIN, 123_456_789_012_345] {
        let number = CSSFloat { nanos };
        assert_eq!(CSSFloat::from_decimal(&text(number)), Some(number));
    }
}

#[test]
fn natural_numbers_are_written_in_decimal() {
    let mut text = String::from("n=");
    write_nat(0, &mut text);
    write_nat(907, &mut text);
    write_nat(u64::MAX, &mut text);
    assert_eq!(text, "n=090718446744073709551615");
}

#[test]
fn products_are_rounded_toward_zero() {
    assert_eq!(mul_div(7, 3, 2), 10);
    assert_eq!(mul_div(-7, 3, 2), -10);
    assert_eq!(mul_div(7, -3, 2), -10);
    assert_eq!(mul_div(-7, -3, 2), 10);
    assert_eq!(mul_div(0, -3, 2), 0);
    assert_eq!(mul_div(i64::MIN, i64::MIN, 1), 1i128 << 126);
    assert_eq!(mul_div(i64::MAX, i64::MIN, u64::MAX), -4611686018427387903);
}

#[test]
fn saturation() {
    assert_eq!(saturate_i32(1 << 40), i32::MAX);
    assert_eq!(saturate_i32(-(1 << 40)), i32::MIN);
    assert_eq!(saturate_i32(-5), -5);
    assert_eq!(saturate_i64(1 << 100), i64::MAX);
    assert_eq!(saturate_i64(-(1 << 100)), i64::MIN);
    assert_eq!(saturate_i64(12), 12);
}

#[test]
fn scaling_a_number() {
    let half = CSSFloat { nanos: 500_000_000 };
    assert_eq!(half.scale(100, 1), CSSFloat { nanos: 50_000_000_000 });
    assert_eq!(half.scale(1, 3), CSSFloat { nanos: 166_666_666 });
    assert_eq!(CSSFloat { nanos: -500_000_000 }.scale(1, 3), CSSFloat { nanos: -166_666_666 });
    assert_eq!(CSSFloat { nanos: i64::MAX }.scale(2, 1), CSSFloat { nanos: i64::MAX });
    assert_eq!(CSSFloat { nanos: i64::MAX }.scale(-2, 1), CSSFloat { nanos: i64::MIN });
    assert!(CSSFloat { nanos: -1 }.is_negative());
    assert!(!CSSFloat { nanos: 0 }.is_negative());
    assert!(CSSFloat { nanos: 0 }.is_zero());
    assert!(!CSSFloat { nanos: 1 }.is_zero());
}

#[test]
fn scaling_a_length() {
    let number = |text: &str| CSSFloat::from_decimal(text).unwrap();
    assert_eq!(Au(960).scale_by(number("1.5")), Au(1440));
    assert_eq!(Au(7).scale_by(number("0.5")), Au(3));
    assert_eq!(Au(-7).scale_by(number("0.5")), Au(-3));
    assert_eq!(Au(7).scale_by(number("-0.5")), Au(-3));
    assert_eq!(Au(7).scale_by_part(number("1"), 2), Au(3));
    assert_eq!(Au(i32::MAX).scale_by(number("2")), Au(i32::MAX));
    assert_eq!(Au(i32::MAX).scale_by(number("-2")), Au(i32::MIN));
    assert_eq!(Au(i32::MAX).plus(Au(1)), Au(i32::MAX));
    assert_eq!(Au(i32::MIN).plus(Au(-1)), Au(i32::MIN));
    assert_eq!(Au(40).plus(Au(2)), Au(42));
    assert_eq!(Au::from_ratio(number("2.54"), 576_000, 254), Au(5760));
    assert_eq!(Au::from_ratio(number("-1"), 60, 1), Au(-60));
}

#[test]
fn keyword_lookup_takes_the_first_match() {
    let table = [("one", 1), ("two", 2), ("ONE", 3)];
    assert_eq!(keyword(&table, "one"), Some(1));
    assert_eq!(keyword(&table, "One"), Some(1));
    assert_eq!(keyword(&table, "TWO"), Some(2));
    assert_eq!(keyword(&table, "three"), None);
    assert_eq!(keyword(&table, ""), None);
    let empty: [(&'static str, u8); 0] = [];
    assert_eq!(keyword(&empty, "one"), None);
}
