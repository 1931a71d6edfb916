use style_values::number::CSSFloat;
use style_values::parser::{url_or_invalid, ParserContext};
use style_values::tokens::{write_string, Color, Parser, RawToken, Token, RGBA};

fn number(text: &str) -> CSSFloat {
    CSSFloat::from_decimal(text).unwrap()
}

#[test]
fn tokens_come_one_by_one() {
    let mut input = Parser::new("  to top, 1.5em 50% 0 rgb( ) @x");
    assert_eq!(input.next(), Ok(Token::Ident(String::from("to"))));
    assert_eq!(input.position(), 4);
    assert_eq!(input.next(), Ok(Token::Ident(String::from("top"))));
    assert_eq!(input.next(), Ok(Token::Comma));
    assert_eq!(input.next(), Ok(Token::Dimension(number("1.5"), String::from("em"))));
    assert_eq!(input.next(), Ok(Token::Percentage(number("0.5"))));
    assert_eq!(input.next(), Ok(Token::Number(number("0"))));
    assert_eq!(input.next(), Ok(Token::Function(String::from("rgb"))));
    assert_eq!(input.next(), Ok(Token::CloseParenthesis));
    assert_eq!(input.next(), Ok(Token::Other));
    assert_eq!(input.next(), Err(()));
    assert_eq!(input.next(), Err(()));
}

#[test]
fn comments_and_white_space_are_skipped() {
    let mut input = Parser::new("/* a */ 1px /* b */ ");
    assert_eq!(input.next(), Ok(Token::Dimension(number("1"), String::from("px"))));
    let after = input.position();
    assert_eq!(input.next(), Err(()));
    assert_eq!(input.position(), after);
}

#[test]
fn numbers_too_great_to_write_are_other_tokens() {
    let mut input = Parser::new("1e50px");
    assert_eq!(input.next(), Ok(Token::Other));
}

#[test]
fn numbers_with_an_exponent() {
    let mut input = Parser::new("1e3px 25e-1 -1.5e1%");
    assert_eq!(input.next(), Ok(Token::Dimension(number("1000"), String::from("px"))));
    assert_eq!(input.next(), Ok(Token::Number(number("2.5"))));
    assert_eq!(input.next(), Ok(Token::Percentage(number("-0.15"))));
}

#[test]
fn the_cursor_can_go_back() {
    let mut input = Parser::new("a b");
    let start = input.position();
    assert_eq!(input.next(), Ok(Token::Ident(String::from("a"))));
    let middle = input.position();
    assert_eq!(input.next(), Ok(Token::Ident(String::from("b"))));
    input.reset(middle);
    assert_eq!(input.next(), Ok(Token::Ident(String::from("b"))));
    input.reset(start);
    assert_eq!(input.next(), Ok(Token::Ident(String::from("a"))));
}

#[test]
fn a_cursor_outside_the_text_reads_nothing() {
    let mut input = Parser::new("é a");
    input.reset(1);
    assert_eq!(input.next(), Err(()));
    assert_eq!(input.next_color(), None);
    assert_eq!(input.next_url(), None);
    input.reset(100);
    assert_eq!(input.next(), Err(()));
    assert_eq!(input.position(), 100);
}

#[test]
fn expecting_a_token() {
    let mut input = Parser::new("to TO , x 1");
    assert_eq!(input.expect_ident(), Ok(String::from("to")));
    assert_eq!(input.expect_ident_matching("to"), Ok(()));
    assert_eq!(input.expect_comma(), Ok(()));
    assert_eq!(input.expect_ident_matching("y"), Err(()));
    assert_eq!(input.expect_ident(), Err(()));
    assert_eq!(input.expect_comma(), Err(()));
    assert_eq!(input.expect_ident(), Err(()));
}

#[test]
fn colors_are_read_by_the_color_parser() {
    let red = Color::RGBA(RGBA { red: 255, green: 0, blue: 0, alpha: 255 });
    assert_eq!(Parser::new("red").next_color(), Some(red));
    assert_eq!(Parser::new("#f00").next_color(), Some(red));
    assert_eq!(Parser::new("#ff0000").next_color(), Some(red));
    assert_eq!(Parser::new("rgb(255, 0, 0)").next_color(), Some(red));
    assert_eq!(
        Parser::new("rgba(0, 0, 255, 0.2)").next_color(),
        Some(Color::RGBA(RGBA { red: 0, green: 0, blue: 255, alpha: 51 }))
    );
    assert_eq!(Parser::new("currentColor").next_color(), Some(Color::CurrentColor));
    assert_eq!(
        Parser::new("transparent").next_color(),
        Some(Color::RGBA(RGBA { red: 0, green: 0, blue: 0, alpha: 0 }))
    );
    assert_eq!(Parser::new("reddish").next_color(), None);
    assert_eq!(Parser::new("12px").next_color(), None);
    assert_eq!(Parser::new("").next_color(), None);
}

#[test]
fn a_color_function_is_read_to_its_end() {
    let mut input = Parser::new("rgb(1, 2, 3) 50%");
    assert_eq!(
        input.next_color(),
        Some(Color::RGBA(RGBA { red: 1, green: 2, blue: 3, alpha: 255 }))
    );
    assert_eq!(input.position(), 12);
    assert_eq!(input.next(), Ok(Token::Percentage(number("0.5"))));
}

#[test]
fn a_failed_color_leaves_the_cursor() {
    let mut input = Parser::new("1px red");
    assert_eq!(input.next_color(), None);
    assert_eq!(input.position(), 0);
}

#[test]
fn colors_are_written_by_the_color_serializer() {
    let mut text = String::new();
    Color::RGBA(RGBA { red: 255, green: 0, blue: 0, alpha: 255 }).to_css(&mut text);
    text.push_str("; ");
    Color::RGBA(RGBA { red: 1, green: 2, blue: 3, alpha: 0 }).to_css(&mut text);
    text.push_str("; ");
    Color::CurrentColor.to_css(&mut text);
    assert_eq!(text, "rgb(255, 0, 0); rgba(1, 2, 3, 0); currentcolor");
}

#[test]
fn urls_are_read_quoted_or_not() {
    let mut input = Parser::new("url(a.png) url(\"b c.png\") url( 'd' ) x");
    assert_eq!(input.next_url(), Some(String::from("a.png")));
    assert_eq!(input.next_url(), Some(String::from("b c.png")));
    assert_eq!(input.next_url(), Some(String::from("d")));
    let before = input.position();
    assert_eq!(input.next_url(), None);
    assert_eq!(input.position(), before);
}

#[test]
fn strings_are_written_between_quotes() {
    let mut text = String::from("url(");
    write_string("a \"b\" \\ c", &mut text);
    text.push(')');
    assert_eq!(text, "url(\"a \\\"b\\\" \\\\ c\")");
}

#[test]
fn urls_are_resolved_against_the_base() {
    let context = ParserContext { base_url: String::from("http://example.com/css/main.css") };
    assert_eq!(context.parse_url("img/a.png"), "http://example.com/css/img/a.png");
    assert_eq!(context.parse_url("/a.png"), "http://example.com/a.png");
    assert_eq!(context.parse_url("../a.png"), "http://example.com/a.png");
    assert_eq!(context.parse_url("https://other.org/x"), "https://other.org/x");
}

#[test]
fn a_url_that_cannot_be_resolved_is_invalid() {
    let context = ParserContext { base_url: String::from("http://example.com/") };
    assert_eq!(context.parse_url("http://[bad"), "about:invalid");
    let without_base = ParserContext { base_url: String::from("not a url") };
    assert_eq!(without_base.parse_url("a.png"), "about:invalid");
}

#[test]
fn raw_tokens_have_their_numerals_read() {
    assert_eq!(
        Token::from_raw(RawToken::Dimension(String::from("-1.5"), String::from("em"))),
        Token::Dimension(number("-1.5"), String::from("em"))
    );
    assert_eq!(Token::from_raw(RawToken::Number(String::from("3"))), Token::Number(number("3")));
    assert_eq!(
        Token::from_raw(RawToken::Percentage(String::from("0.5"))),
        Token::Percentage(number("0.5"))
    );
    assert_eq!(Token::from_raw(RawToken::Number(String::from("inf"))), Token::Other);
    assert_eq!(Token::from_raw(RawToken::Percentage(String::from("NaN"))), Token::Other);
    assert_eq!(
        Token::from_raw(RawToken::Dimension(String::from("-inf"), String::from("px"))),
        Token::Other
    );
    assert_eq!(
        Token::from_raw(RawToken::Ident(String::from("auto"))),
        Token::Ident(String::from("auto"))
    );
    assert_eq!(
        Token::from_raw(RawToken::Function(String::from("rgb"))),
        Token::Function(String::from("rgb"))
    );
    assert_eq!(Token::from_raw(RawToken::Comma), Token::Comma);
    assert_eq!(Token::from_raw(RawToken::CloseParenthesis), Token::CloseParenthesis);
    assert_eq!(Token::from_raw(RawToken::Other), Token::Other);
}

#[test]
fn an_unresolved_reference_is_replaced() {
    assert_eq!(url_or_invalid(Some(String::from("http://a/b"))), "http://a/b");
    assert_eq!(url_or_invalid(None), "about:invalid");
}
