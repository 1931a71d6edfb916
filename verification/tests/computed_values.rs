use style_values::computed::{
    compute_Au, compute_Au_with_font_size, compute_BorderStyle, compute_CSSColor,
    compute_Length, compute_LengthOrPercentage, compute_LengthOrPercentageOrAuto,
    compute_LengthOrPercentageOrNone, ColorStop, Context, Image, LengthOrPercentage,
    LengthOrPercentageOrAuto, LengthOrPercentageOrNone, LinearGradient,
};
use style_values::geometry::Au;
use style_values::number::CSSFloat;
use style_values::parser::ParserContext;
use style_values::specified;
use style_values::tokens::{Color, Parser, RGBA};

fn number(text: &str) -> CSSFloat {
    CSSFloat::from_decimal(text).unwrap()
}

fn context(font_size: i32, root_font_size: i32) -> Context {
    Context {
        inherited_font_size: Au(font_size),
        inherited_height: LengthOrPercentageOrAuto::Auto,
        color: RGBA { red: 0, green: 0, blue: 0, alpha: 255 },
        font_size: Au(font_size),
        root_font_size: Au(root_font_size),
        positioned: false,
        floated: false,
        border_top_present: false,
        border_right_present: false,
        border_bottom_present: false,
        border_left_present: false,
        is_root_element: false,
    }
}

#[test]
fn absolute_length_passes_through() {
    assert_eq!(compute_Au(specified::Length::Au(Au(123)), &context(960, 1200)), Au(123));
    assert_eq!(compute_Length(specified::Length::Au(Au(-5)), &context(960, 1200)), Au(-5));
}

#[test]
fn em_scales_the_font_size() {
    assert_eq!(compute_Au(specified::Length::Em(number("1.5")), &context(960, 1200)), Au(1440));
    assert_eq!(compute_Au(specified::Length::Em(number("-2")), &context(960, 1200)), Au(-1920));
    assert_eq!(compute_Au(specified::Length::Em(number("0.001")), &context(999, 1200)), Au(0));
}

#[test]
fn ex_scales_half_the_font_size() {
    assert_eq!(compute_Au(specified::Length::Ex(number("1")), &context(960, 1200)), Au(480));
    assert_eq!(compute_Au(specified::Length::Ex(number("3")), &context(960, 1200)), Au(1440));
    // Rounded once: 3 * 0.5 * 5 = 7.5.
    assert_eq!(compute_Au(specified::Length::Ex(number("3")), &context(5, 1200)), Au(7));
}

#[test]
fn rem_scales_the_root_font_size() {
    assert_eq!(compute_Au(specified::Length::Rem(number("2")), &context(960, 1200)), Au(2400));
    assert_eq!(compute_Au(specified::Length::Rem(number("0.5")), &context(960, 1201)), Au(600));
}

#[test]
fn character_width_of_one_is_the_font_size() {
    for size in [0, 1, 7, 960, 961, i32::MAX, -3] {
        assert_eq!(
            compute_Au(specified::Length::ServoCharacterWidth(1), &context(size, 1200)),
            Au(size)
        );
    }
}

#[test]
fn character_width_of_three_is_twice_the_font_size() {
    assert_eq!(
        compute_Au(specified::Length::ServoCharacterWidth(3), &context(960, 1200)),
        Au(1920)
    );
    assert_eq!(
        compute_Au_with_font_size(specified::Length::ServoCharacterWidth(3), Au(10), Au(0)),
        Au(20)
    );
}

#[test]
fn character_width_halves_an_odd_font_size_downward() {
    // The average advance of 11 is 5: 5 * 2 + 11.
    assert_eq!(
        compute_Au_with_font_size(specified::Length::ServoCharacterWidth(3), Au(11), Au(0)),
        Au(21)
    );
    assert_eq!(
        compute_Au_with_font_size(specified::Length::ServoCharacterWidth(20), Au(960), Au(0)),
        Au(480 * 19 + 960)
    );
    assert_eq!(
        compute_Au_with_font_size(specified::Length::ServoCharacterWidth(0), Au(960), Au(0)),
        Au(480)
    );
}

#[test]
fn character_width_saturates() {
    assert_eq!(
        compute_Au_with_font_size(specified::Length::ServoCharacterWidth(i32::MAX), Au(960), Au(0)),
        Au(i32::MAX)
    );
    assert_eq!(
        compute_Au_with_font_size(specified::Length::ServoCharacterWidth(i32::MIN), Au(960), Au(0)),
        Au(i32::MIN + 960)
    );
}

#[test]
fn font_size_pair_is_used_as_given() {
    assert_eq!(
        compute_Au_with_font_size(specified::Length::Em(number("2")), Au(100), Au(7)),
        Au(200)
    );
    assert_eq!(
        compute_Au_with_font_size(specified::Length::Rem(number("2")), Au(100), Au(7)),
        Au(14)
    );
}

#[test]
fn percentages_and_keywords_pass_through() {
    let c = context(960, 1200);
    assert_eq!(
        compute_LengthOrPercentage(specified::LengthOrPercentage::Percentage(number("0.4")), &c),
        LengthOrPercentage::Percentage(number("0.4"))
    );
    assert_eq!(
        compute_LengthOrPercentage(
            specified::LengthOrPercentage::Length(specified::Length::Em(number("2"))),
            &c
        ),
        LengthOrPercentage::Length(Au(1920))
    );
    assert_eq!(
        compute_LengthOrPercentageOrAuto(specified::LengthOrPercentageOrAuto::Auto, &c),
        LengthOrPercentageOrAuto::Auto
    );
    assert_eq!(
        compute_LengthOrPercentageOrAuto(
            specified::LengthOrPercentageOrAuto::Percentage(number("2")),
            &c
        ),
        LengthOrPercentageOrAuto::Percentage(number("2"))
    );
    assert_eq!(
        compute_LengthOrPercentageOrAuto(
            specified::LengthOrPercentageOrAuto::Length(specified::Length::Rem(number("1"))),
            &c
        ),
        LengthOrPercentageOrAuto::Length(Au(1200))
    );
    assert_eq!(
        compute_LengthOrPercentageOrNone(specified::LengthOrPercentageOrNone::none, &c),
        LengthOrPercentageOrNone::none
    );
    assert_eq!(
        compute_LengthOrPercentageOrNone(
            specified::LengthOrPercentageOrNone::Percentage(number("-1")),
            &c
        ),
        LengthOrPercentageOrNone::Percentage(number("-1"))
    );
    assert_eq!(
        compute_LengthOrPercentageOrNone(
            specified::LengthOrPercentageOrNone::Length(specified::Length::Ex(number("1"))),
            &c
        ),
        LengthOrPercentageOrNone::Length(Au(480))
    );
}

#[test]
fn colors_and_border_styles_compute_to_themselves() {
    let c = context(960, 1200);
    let red = Color::RGBA(RGBA { red: 255, green: 0, blue: 0, alpha: 255 });
    let authored = specified::CSSColor { parsed: red, authored: Some(String::from("red")) };
    assert_eq!(compute_CSSColor(authored, &c), red);
    assert_eq!(
        compute_BorderStyle(specified::BorderStyle::dashed, &c),
        specified::BorderStyle::dashed
    );
}

#[test]
fn gradient_stops_are_computed_in_order() {
    let c = context(960, 1200);
    let parser_context = ParserContext { base_url: String::from("http://example.com/") };
    let image = specified::Image::parse(
        &parser_context,
        &mut Parser::new("linear-gradient(to top left, red 2em, blue, #0f0 50%)"),
    )
    .unwrap();
    let computed = image.to_computed_value(&c);
    let red = Color::RGBA(RGBA { red: 255, green: 0, blue: 0, alpha: 255 });
    let blue = Color::RGBA(RGBA { red: 0, green: 0, blue: 255, alpha: 255 });
    let green = Color::RGBA(RGBA { red: 0, green: 255, blue: 0, alpha: 255 });
    assert_eq!(
        computed,
        Image::LinearGradient(LinearGradient {
            angle_or_corner: specified::AngleOrCorner::Corner(
                specified::HorizontalDirection::Left,
                specified::VerticalDirection::Top
            ),
            stops: vec![
                ColorStop { color: red, position: Some(LengthOrPercentage::Length(Au(1920))) },
                ColorStop { color: blue, position: None },
                ColorStop {
                    color: green,
                    position: Some(LengthOrPercentage::Percentage(number("0.5")))
                },
            ],
        })
    );
    let mut text = String::new();
    computed.to_css(&mut text);
    assert_eq!(
        text,
        "linear-gradient(to left top, rgb(255, 0, 0) 32px, rgb(0, 0, 255), rgb(0, 255, 0) 50%)"
    );
}

#[test]
fn gradient_compute_keeps_the_angle() {
    let gradient = specified::LinearGradient {
        angle_or_corner: specified::AngleOrCorner::Angle(specified::Angle(number("1"))),
        stops: vec![],
    };
    let computed = LinearGradient::compute(gradient, &context(1, 1));
    assert_eq!(
        computed,
        LinearGradient {
            angle_or_corner: specified::AngleOrCorner::Angle(specified::Angle(number("1"))),
            stops: vec![],
        }
    );
    let mut text = String::new();
    computed.to_css(&mut text);
    assert_eq!(text, "1rad");
}

#[test]
fn url_images_compute_to_themselves() {
    let image = specified::Image::Url(String::from("http://example.com/a.png"));
    let computed = image.to_computed_value(&context(960, 1200));
    assert_eq!(computed, Image::Url(String::from("http://example.com/a.png")));
    let mut text = String::new();
    computed.to_css(&mut text);
    assert_eq!(text, "url(\"http://example.com/a.png\")");
}

#[test]
fn computed_values_are_written() {
    let mut text = String::new();
    LengthOrPercentage::Length(Au(90)).to_css(&mut text);
    text.push(' ');
    LengthOrPercentage::Percentage(number("0.25")).to_css(&mut text);
    text.push(' ');
    LengthOrPercentageOrAuto::Auto.to_css(&mut text);
    text.push(' ');
    LengthOrPercentageOrAuto::Length(Au(1)).to_css(&mut text);
    text.push(' ');
    LengthOrPercentageOrAuto::Percentage(number("1")).to_css(&mut text);
    text.push(' ');
    LengthOrPercentageOrNone::none.to_css(&mut text);
    text.push(' ');
    LengthOrPercentageOrNone::Length(Au(-60)).to_css(&mut text);
    text.push(' ');
    LengthOrPercentageOrNone::Percentage(number("0.5")).to_css(&mut text);
    assert_eq!(text, "1.5px 25% auto 0.017px 100% none -1px 50%");
}
