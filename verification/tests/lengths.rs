use style_values::geometry::Au;
use style_values::number::CSSFloat;
use style_values::specified::{
    parse_border_width, Length, LengthOrPercentage, LengthOrPercentageOrAuto,
    LengthOrPercentageOrNone, LengthUnit, PositionComponent,
};
use style_values::tokens::{Parser, Token};

fn number(text: &str) -> CSSFloat {
    CSSFloat::from_decimal(text).unwrap()
}

fn css(length: &Length) -> String {
    let mut text = String::new();
    length.to_css(&mut text);
    text
}

#[test]
fn one_inch_is_ninety_six_pixels() {
    let inch = Length::parse(&mut Parser::new("1in"));
    let pixels = Length::parse(&mut Parser::new("96px"));
    assert_eq!(inch, Ok(Length::Au(Au(5760))));
    assert_eq!(inch, pixels);
}

#[test]
fn one_pica_is_twelve_points() {
    let pica = Length::parse(&mut Parser::new("1pc"));
    let points = Length::parse(&mut Parser::new("12pt"));
    assert_eq!(pica, Ok(Length::Au(Au(960))));
    assert_eq!(pica, points);
}

#[test]
fn one_point_is_an_inch_over_seventy_two() {
    assert_eq!(Length::parse(&mut Parser::new("1pt")), Ok(Length::Au(Au(80))));
    assert_eq!(
        Length::parse(&mut Parser::new("72pt")),
        Length::parse(&mut Parser::new("1in"))
    );
}

#[test]
fn centimetres_and_millimetres() {
    // 2.54 cm are an inch, 25.4 mm too.
    assert_eq!(Length::parse(&mut Parser::new("2.54cm")), Ok(Length::Au(Au(5760))));
    assert_eq!(Length::parse(&mut Parser::new("25.4mm")), Ok(Length::Au(Au(5760))));
    // 1 cm is 5760 / 2.54 = 2267.71..., 1 mm is 226.77...
    assert_eq!(Length::parse(&mut Parser::new("1cm")), Ok(Length::Au(Au(2267))));
    assert_eq!(Length::parse(&mut Parser::new("1mm")), Ok(Length::Au(Au(226))));
}

#[test]
fn conversion_truncates_toward_zero() {
    // 0.999 px are 59.94 units: 59, not 60.
    assert_eq!(Length::parse(&mut Parser::new("0.999px")), Ok(Length::Au(Au(59))));
    assert_eq!(Length::parse(&mut Parser::new("-0.999px")), Ok(Length::Au(Au(-59))));
    // 0.0104 in are 59.904 units.
    assert_eq!(Length::parse(&mut Parser::new("0.0104in")), Ok(Length::Au(Au(59))));
    // 0.749 pt are 59.92 units.
    assert_eq!(Length::parse(&mut Parser::new("0.749pt")), Ok(Length::Au(Au(59))));
    assert_eq!(Length::from_px(number("0.016")), Length::Au(Au(0)));
    assert_eq!(Length::from_px(number("-0.016")), Length::Au(Au(0)));
}

#[test]
fn conversion_saturates() {
    assert_eq!(Length::parse(&mut Parser::new("1000000000px")), Ok(Length::Au(Au(i32::MAX))));
    assert_eq!(Length::parse(&mut Parser::new("-1000000000px")), Ok(Length::Au(Au(i32::MIN))));
}

#[test]
fn font_relative_lengths_keep_their_number() {
    assert_eq!(Length::parse(&mut Parser::new("1.5em")), Ok(Length::Em(number("1.5"))));
    assert_eq!(Length::parse(&mut Parser::new("2ex")), Ok(Length::Ex(number("2"))));
    assert_eq!(Length::parse(&mut Parser::new("-0.25rem")), Ok(Length::Rem(number("-0.25"))));
}

#[test]
fn units_are_matched_whatever_their_case() {
    assert_eq!(Length::parse(&mut Parser::new("1IN")), Ok(Length::Au(Au(5760))));
    assert_eq!(Length::parse(&mut Parser::new("3Px")), Ok(Length::Au(Au(180))));
    assert_eq!(Length::parse_dimension(number("1"), "REM"), Ok(Length::Rem(number("1"))));
}

#[test]
fn unknown_unit_is_an_error() {
    assert_eq!(Length::parse(&mut Parser::new("1furlong")), Err(()));
    assert_eq!(Length::parse(&mut Parser::new("1deg")), Err(()));
    assert_eq!(Length::parse_dimension(number("1"), ""), Err(()));
    assert_eq!(LengthOrPercentage::parse(&mut Parser::new("3q")), Err(()));
}

#[test]
fn zero_needs_no_unit() {
    assert_eq!(Length::parse(&mut Parser::new("0")), Ok(Length::Au(Au(0))));
    assert_eq!(Length::parse_non_negative(&mut Parser::new("0")), Ok(Length::Au(Au(0))));
    assert_eq!(Length::parse(&mut Parser::new("1")), Err(()));
    assert_eq!(
        LengthOrPercentageOrAuto::parse(&mut Parser::new("0")),
        Ok(LengthOrPercentageOrAuto::Length(Length::Au(Au(0))))
    );
}

#[test]
fn other_tokens_are_no_length() {
    assert_eq!(Length::parse(&mut Parser::new("")), Err(()));
    assert_eq!(Length::parse(&mut Parser::new("auto")), Err(()));
    assert_eq!(Length::parse(&mut Parser::new("50%")), Err(()));
    assert_eq!(Length::parse(&mut Parser::new(",")), Err(()));
}

#[test]
fn negative_dimension_fails_only_where_it_may_not_be_negative() {
    assert_eq!(Length::parse_non_negative(&mut Parser::new("-1px")), Err(()));
    assert_eq!(Length::parse(&mut Parser::new("-1px")), Ok(Length::Au(Au(-60))));
    assert_eq!(LengthOrPercentage::parse_non_negative(&mut Parser::new("-2em")), Err(()));
    assert_eq!(
        LengthOrPercentage::parse(&mut Parser::new("-2em")),
        Ok(LengthOrPercentage::Length(Length::Em(number("-2"))))
    );
    assert_eq!(LengthOrPercentageOrAuto::parse_non_negative(&mut Parser::new("-5%")), Err(()));
    assert_eq!(
        LengthOrPercentageOrAuto::parse(&mut Parser::new("-5%")),
        Ok(LengthOrPercentageOrAuto::Percentage(number("-0.05")))
    );
    assert_eq!(LengthOrPercentageOrNone::parse_non_negative(&mut Parser::new("-1pt")), Err(()));
    assert_eq!(
        LengthOrPercentageOrNone::parse(&mut Parser::new("-1pt")),
        Ok(LengthOrPercentageOrNone::Length(Length::Au(Au(-80))))
    );
}

#[test]
fn non_negative_values_pass_both_ways() {
    assert_eq!(
        Length::parse_non_negative(&mut Parser::new("2px")),
        Length::parse(&mut Parser::new("2px"))
    );
    assert_eq!(
        LengthOrPercentage::parse_non_negative(&mut Parser::new("10%")),
        Ok(LengthOrPercentage::Percentage(number("0.1")))
    );
}

#[test]
fn percentage_is_kept_as_a_fraction() {
    assert_eq!(
        LengthOrPercentage::parse(&mut Parser::new("37.5%")),
        Ok(LengthOrPercentage::Percentage(CSSFloat { nanos: 375_000_000 }))
    );
    let mut text = String::new();
    LengthOrPercentage::Percentage(CSSFloat { nanos: 375_000_000 }).to_css(&mut text);
    assert_eq!(text, "37.5%");
}

#[test]
fn percentage_is_not_limited_to_one() {
    assert_eq!(
        LengthOrPercentage::parse(&mut Parser::new("250%")),
        Ok(LengthOrPercentage::Percentage(number("2.5")))
    );
}

#[test]
fn keywords_auto_and_none() {
    assert_eq!(
        LengthOrPercentageOrAuto::parse(&mut Parser::new("auto")),
        Ok(LengthOrPercentageOrAuto::Auto)
    );
    assert_eq!(
        LengthOrPercentageOrAuto::parse(&mut Parser::new("AUTO")),
        Ok(LengthOrPercentageOrAuto::Auto)
    );
    assert_eq!(LengthOrPercentageOrAuto::parse(&mut Parser::new("none")), Err(()));
    assert_eq!(
        LengthOrPercentageOrNone::parse(&mut Parser::new("none")),
        Ok(LengthOrPercentageOrNone::none)
    );
    assert_eq!(LengthOrPercentageOrNone::parse(&mut Parser::new("auto")), Err(()));
    assert_eq!(LengthOrPercentage::parse(&mut Parser::new("auto")), Err(()));
}

#[test]
fn a_matching_token_with_a_wrong_unit_does_not_fall_through() {
    // A dimension is never read as a keyword or as a percentage.
    assert_eq!(LengthOrPercentageOrAuto::parse(&mut Parser::new("1auto")), Err(()));
    assert_eq!(PositionComponent::parse(&mut Parser::new("1left")), Err(()));
}

#[test]
fn the_cursor_ends_after_the_token() {
    let mut input = Parser::new("1px 2em");
    assert_eq!(Length::parse(&mut input), Ok(Length::Au(Au(60))));
    assert_eq!(input.position(), 3);
    assert_eq!(Length::parse(&mut input), Ok(Length::Em(number("2"))));
    assert_eq!(input.position(), 7);
    assert_eq!(Length::parse(&mut input), Err(()));
    assert_eq!(input.position(), 7);
}

#[test]
fn a_failed_parse_has_read_the_token() {
    let mut input = Parser::new("auto 1px");
    assert_eq!(Length::parse(&mut input), Err(()));
    assert_eq!(input.position(), 4);
    assert_eq!(Length::parse(&mut input), Ok(Length::Au(Au(60))));
}

#[test]
fn length_from_a_token() {
    let token = Token::Dimension(number("1"), String::from("in"));
    assert_eq!(Length::from_token(&token, true), Ok(Length::Au(Au(5760))));
    let negative = Token::Dimension(number("-1"), String::from("in"));
    assert_eq!(Length::from_token(&negative, false), Err(()));
    assert_eq!(Length::from_token(&negative, true), Ok(Length::Au(Au(-5760))));
    assert_eq!(Length::from_token(&Token::Number(number("0")), false), Ok(Length::Au(Au(0))));
    assert_eq!(Length::from_token(&Token::Number(number("2")), true), Err(()));
    assert_eq!(Length::from_token(&Token::Comma, true), Err(()));
}

#[test]
fn length_from_a_unit() {
    assert_eq!(Length::from_unit(number("2"), LengthUnit::Px), Length::Au(Au(120)));
    assert_eq!(Length::from_unit(number("2"), LengthUnit::In), Length::Au(Au(11520)));
    assert_eq!(Length::from_unit(number("2"), LengthUnit::Cm), Length::Au(Au(4535)));
    assert_eq!(Length::from_unit(number("2"), LengthUnit::Mm), Length::Au(Au(453)));
    assert_eq!(Length::from_unit(number("2"), LengthUnit::Pt), Length::Au(Au(160)));
    assert_eq!(Length::from_unit(number("2"), LengthUnit::Pc), Length::Au(Au(1920)));
    assert_eq!(Length::from_unit(number("2"), LengthUnit::Em), Length::Em(number("2")));
    assert_eq!(Length::from_unit(number("2"), LengthUnit::Ex), Length::Ex(number("2")));
    assert_eq!(Length::from_unit(number("2"), LengthUnit::Rem), Length::Rem(number("2")));
}

#[test]
fn lengths_are_written_in_their_own_unit() {
    assert_eq!(css(&Length::Au(Au(60))), "1px");
    assert_eq!(css(&Length::Au(Au(90))), "1.5px");
    assert_eq!(css(&Length::Au(Au(-90))), "-1.5px");
    assert_eq!(css(&Length::Au(Au(0))), "0px");
    assert_eq!(css(&Length::Em(number("1.5"))), "1.5em");
    assert_eq!(css(&Length::Ex(number("0.5"))), "0.5ex");
    assert_eq!(css(&Length::Rem(number("-2"))), "-2rem");
}

#[test]
fn pixels_are_rounded_away_from_zero() {
    // A unit is a sixtieth of a pixel, 0.01666...
    assert_eq!(css(&Length::Au(Au(1))), "0.017px");
    assert_eq!(css(&Length::Au(Au(-1))), "-0.017px");
    assert_eq!(css(&Length::Au(Au(2))), "0.034px");
    assert_eq!(css(&Length::Au(Au(4))), "0.067px");
    assert_eq!(Au(1).to_subpx(), CSSFloat { nanos: 17_000_000 });
    assert_eq!(Au(3).to_subpx(), CSSFloat { nanos: 50_000_000 });
    assert_eq!(Au(-3).to_subpx(), CSSFloat { nanos: -50_000_000 });
}

#[test]
fn length_text_reads_back_as_the_same_text() {
    for units in [0, 1, 2, 7, 59, 60, 61, 90, 100, 959, 5760, 59_999, -1, -7, -90, -100] {
        let text = css(&Length::Au(Au(units)));
        let read = Length::parse(&mut Parser::new(&text)).unwrap();
        assert_eq!(read, Length::Au(Au(units)));
        assert_eq!(css(&read), text);
    }
    for text in ["1.5em", "-0.25rem", "3ex", "0.001em"] {
        let read = Length::parse(&mut Parser::new(text)).unwrap();
        assert_eq!(css(&read), text);
    }
}

#[test]
fn unions_read_back_as_the_same_text() {
    for text in ["37.5%", "0%", "-5%", "1.5px", "2em", "100%"] {
        let read = LengthOrPercentage::parse(&mut Parser::new(text)).unwrap();
        let mut written = String::new();
        read.to_css(&mut written);
        assert_eq!(written, text);
    }
    for text in ["auto", "12.5%", "3rem"] {
        let read = LengthOrPercentageOrAuto::parse(&mut Parser::new(text)).unwrap();
        let mut written = String::new();
        read.to_css(&mut written);
        assert_eq!(written, text);
    }
    for text in ["none", "12.5%", "3ex"] {
        let read = LengthOrPercentageOrNone::parse(&mut Parser::new(text)).unwrap();
        let mut written = String::new();
        read.to_css(&mut written);
        assert_eq!(written, text);
    }
}

#[test]
fn position_components() {
    assert_eq!(PositionComponent::parse(&mut Parser::new("center")), Ok(PositionComponent::Center));
    assert_eq!(PositionComponent::parse(&mut Parser::new("Left")), Ok(PositionComponent::Left));
    assert_eq!(PositionComponent::parse(&mut Parser::new("right")), Ok(PositionComponent::Right));
    assert_eq!(PositionComponent::parse(&mut Parser::new("top")), Ok(PositionComponent::Top));
    assert_eq!(PositionComponent::parse(&mut Parser::new("BOTTOM")), Ok(PositionComponent::Bottom));
    assert_eq!(PositionComponent::parse(&mut Parser::new("middle")), Err(()));
    assert_eq!(
        PositionComponent::parse(&mut Parser::new("-10px")),
        Ok(PositionComponent::Length(Length::Au(Au(-600))))
    );
    assert_eq!(
        PositionComponent::parse(&mut Parser::new("-25%")),
        Ok(PositionComponent::Percentage(number("-0.25")))
    );
    assert_eq!(
        PositionComponent::parse(&mut Parser::new("0")),
        Ok(PositionComponent::Length(Length::Au(Au(0))))
    );
}

#[test]
fn position_keywords_stand_for_percentages() {
    let percentage = |text: &str| LengthOrPercentage::Percentage(number(text));
    assert_eq!(PositionComponent::Center.to_length_or_percentage(), percentage("0.5"));
    assert_eq!(PositionComponent::Left.to_length_or_percentage(), percentage("0"));
    assert_eq!(PositionComponent::Top.to_length_or_percentage(), percentage("0"));
    assert_eq!(PositionComponent::Right.to_length_or_percentage(), percentage("1"));
    assert_eq!(PositionComponent::Bottom.to_length_or_percentage(), percentage("1"));
    assert_eq!(
        PositionComponent::Length(Length::Au(Au(7))).to_length_or_percentage(),
        LengthOrPercentage::Length(Length::Au(Au(7)))
    );
    assert_eq!(
        PositionComponent::Percentage(number("0.3")).to_length_or_percentage(),
        percentage("0.3")
    );
}

#[test]
fn border_widths() {
    assert_eq!(parse_border_width(&mut Parser::new("thin")), Ok(Length::Au(Au(60))));
    assert_eq!(parse_border_width(&mut Parser::new("medium")), Ok(Length::Au(Au(180))));
    assert_eq!(parse_border_width(&mut Parser::new("THICK")), Ok(Length::Au(Au(300))));
    assert_eq!(parse_border_width(&mut Parser::new("2px")), Ok(Length::Au(Au(120))));
    assert_eq!(parse_border_width(&mut Parser::new("0")), Ok(Length::Au(Au(0))));
    assert_eq!(parse_border_width(&mut Parser::new("-2px")), Err(()));
    assert_eq!(parse_border_width(&mut Parser::new("wide")), Err(()));
    assert_eq!(parse_border_width(&mut Parser::new("")), Err(()));
}

#[test]
fn pixels_of_a_length_convert_back() {
    for units in (-500..=500).chain([i32::MAX, i32::MIN, i32::MAX - 1, 16_777_217, -59_999_999]) {
        assert_eq!(Length::from_px(Au(units).to_subpx()), Length::Au(Au(units)));
    }
}

#[test]
fn text_beyond_the_precision_of_a_token_reads_back_nearby() {
    // A token holds its number in single precision: 1666666.684 is read as
    // 1666666.6.
    let text = css(&Length::Au(Au(100_000_001)));
    assert_eq!(text, "1666666.684px");
    assert_eq!(Length::parse(&mut Parser::new(&text)), Ok(Length::Au(Au(99_999_996))));
}
