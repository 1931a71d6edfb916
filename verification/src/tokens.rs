//! The token stream: a cursor over CSS text that yields one token at a time.
//!
//! Breaking the text into tokens, reading a color and reading a URL are the
//! work of the `cssparser` crate; the cursor hands it the rest of the text and
//! keeps the result as plain values.

use crate::decimal::spec_from_decimal;
use crate::keywords::eq_ignoring_case;
use crate::number::CSSFloat;
use cssparser::{Parser as CssParser, ParserInput, ToCss, Token as CssToken};
use vstd::prelude::*;
use vstd::string::StringExecFns;
use vstd::utf8::encode_utf8;

verus! {

/// A token as the tokenizer hands it over, its numbers still written out as
/// decimal numerals: the shortest ones that denote the numbers it holds.
pub enum RawToken {
    /// An identifier.
    Ident(String),
    /// The name of a function, up to its opening parenthesis.
    Function(String),
    /// A number without a unit.
    Number(String),
    /// A percentage, as its hundredth: the numeral of 0.5 for `50%`.
    Percentage(String),
    /// A number and the unit that follows it.
    Dimension(String, String),
    /// A comma.
    Comma,
    /// A closing parenthesis.
    CloseParenthesis,
    /// Any other token.
    Other,
}

/// One of the pieces that CSS text is broken into.
#[derive(Debug, PartialEq, Eq)]
pub enum Token {
    /// An identifier.
    Ident(String),
    /// The name of a function, up to its opening parenthesis.
    Function(String),
    /// A number without a unit.
    Number(CSSFloat),
    /// A percentage, as a fraction: 0.5 for `50%`.
    Percentage(CSSFloat),
    /// A number and the unit that follows it.
    Dimension(CSSFloat, String),
    /// A comma.
    Comma,
    /// A closing parenthesis.
    CloseParenthesis,
    /// Any other token.
    Other,
}

/// The parsed value of a color.
#[derive(Clone, Copy, Debug, PartialEq, Eq, Structural)]
pub enum Color {
    /// The `currentcolor` keyword.
    CurrentColor,
    /// Any other color, as red, green, blue and alpha.
    RGBA(RGBA),
}

/// A color with red, green, blue and alpha components, a byte each.
#[derive(Clone, Copy, Debug, PartialEq, Eq, Structural)]
pub struct RGBA {
    /// The red component.
    pub red: u8,
    /// The green component.
    pub green: u8,
    /// The blue component.
    pub blue: u8,
    /// The alpha component; 255 is opaque.
    pub alpha: u8,
}

/// The first token of `css` from the byte offset `start` on, after any white
/// space and comments, and the number of bytes up to its end; `None` where no
/// token starts.
pub uninterp spec fn css_token_at(css: Seq<char>, start: usize) -> Option<(RawToken, usize)>;

/// The color that `css` holds at the byte offset `start`, and the number of
/// bytes up to its end; `None` where no color stands.
pub uninterp spec fn css_color_at(css: Seq<char>, start: usize) -> Option<(Color, usize)>;

/// The URL that `css` holds at the byte offset `start`, and the number of
/// bytes up to its end; `None` where no URL stands.
pub uninterp spec fn css_url_at(css: Seq<char>, start: usize) -> Option<(String, usize)>;

/// The canonical CSS text of a color.
pub uninterp spec fn css_color_text(color: Color) -> Seq<char>;

/// The text `value` written as a CSS string between double quotes.
pub uninterp spec fn css_string_text(value: Seq<char>) -> Seq<char>;

/// The number of bytes that `text` takes.
pub open spec fn byte_len(text: Seq<char>) -> nat {
    encode_utf8(text).len()
}

/// Calls `cssparser::Parser::next` on the text that follows the byte offset
/// `start`. The token comes back with its text copied and its number written
/// out in decimal, as `to_string` writes it; with it comes the number of bytes
/// that the parser has consumed, which is at least one and ends within the
/// text.
#[verifier::external_body]
fn token_at(css: &str, start: usize) -> (found: Option<(RawToken, usize)>)
    ensures
        found == css_token_at(css@, start),
        found matches Some((_, n)) ==> 0 < n && start + n <= byte_len(css@) <= usize::MAX,
{
    let mut input = ParserInput::new(css.get(start..)?);
    let mut parser = CssParser::new(&mut input);
    let token = match parser.next().ok()? {
        CssToken::Ident(s) => RawToken::Ident(s.to_string()),
        CssToken::Function(s) => RawToken::Function(s.to_string()),
        CssToken::Number { value, .. } => RawToken::Number(value.to_string()),
        CssToken::Percentage { unit_value, .. } => RawToken::Percentage(unit_value.to_string()),
        CssToken::Dimension { value, unit, .. } => RawToken::Dimension(value.to_string(), unit.to_string()),
        CssToken::Comma => RawToken::Comma,
        CssToken::CloseParenthesis => RawToken::CloseParenthesis,
        _ => RawToken::Other,
    };
    Some((token, parser.position().byte_index()))
}

/// Calls `cssparser::Color::parse` on the text that follows the byte offset
/// `start`. With the color comes the number of bytes that the parser has
/// consumed, which is at least one and ends within the text.
#[verifier::external_body]
fn color_at(css: &str, start: usize) -> (found: Option<(Color, usize)>)
    ensures
        found == css_color_at(css@, start),
        found matches Some((_, n)) ==> 0 < n && start + n <= byte_len(css@) <= usize::MAX,
{
    let mut input = ParserInput::new(css.get(start..)?);
    let mut parser = CssParser::new(&mut input);
    let color = match cssparser::Color::parse(&mut parser).ok()? {
        cssparser::Color::CurrentColor => Color::CurrentColor,
        cssparser::Color::RGBA(c) => Color::RGBA(
            RGBA { red: c.red, green: c.green, blue: c.blue, alpha: c.alpha },
        ),
    };
    Some((color, parser.position().byte_index()))
}

/// Calls `cssparser::Parser::expect_url` on the text that follows the byte
/// offset `start`. With the URL comes the number of bytes that the parser has
/// consumed, which is at least one and ends within the text.
#[verifier::external_body]
fn url_at(css: &str, start: usize) -> (found: Option<(String, usize)>)
    ensures
        found == css_url_at(css@, start),
        found matches Some((_, n)) ==> 0 < n && start + n <= byte_len(css@) <= usize::MAX,
{
    let mut input = ParserInput::new(css.get(start..)?);
    let mut parser = CssParser::new(&mut input);
    let url = parser.expect_url().ok()?.to_string();
    Some((url, parser.position().byte_index()))
}

/// Calls `cssparser::ToCss::to_css_string` on the color.
#[verifier::external_body]
fn color_text(color: Color) -> (text: String)
    ensures
        text@ == css_color_text(color),
{
    let color = match color {
        Color::CurrentColor => cssparser::Color::CurrentColor,
        Color::RGBA(c) => cssparser::Color::RGBA(cssparser::RGBA::new(c.red, c.green, c.blue, c.alpha)),
    };
    color.to_css_string()
}

/// Calls `cssparser::serialize_string`, which writes `value` between double
/// quotes, escaping what a CSS string cannot hold as it is.
#[verifier::external_body]
fn string_text(value: &str) -> (text: String)
    ensures
        text@ == css_string_text(value@),
{
    let mut text = String::new();
    let _ = cssparser::serialize_string(value, &mut text);
    text
}

/// Appends `value`, written as a CSS string between double quotes, to `dest`.
pub fn write_string(value: &str, dest: &mut String)
    ensures
        final(dest)@ == old(dest)@ + css_string_text(value@),
{
    let text = string_text(value);
    dest.append(text.as_str());
}

/// The token that `raw` stands for: its numerals read as numbers. A number
/// token whose numeral cannot be read is any other token.
pub open spec fn token_of(raw: RawToken) -> Token {
    match raw {
        RawToken::Ident(name) => Token::Ident(name),
        RawToken::Function(name) => Token::Function(name),
        RawToken::Number(numeral) => match spec_from_decimal(numeral@) {
            Some(value) => Token::Number(value),
            None => Token::Other,
        },
        RawToken::Percentage(numeral) => match spec_from_decimal(numeral@) {
            Some(value) => Token::Percentage(value),
            None => Token::Other,
        },
        RawToken::Dimension(numeral, unit) => match spec_from_decimal(numeral@) {
            Some(value) => Token::Dimension(value, unit),
            None => Token::Other,
        },
        RawToken::Comma => Token::Comma,
        RawToken::CloseParenthesis => Token::CloseParenthesis,
        RawToken::Other => Token::Other,
    }
}

impl Token {
    /// Makes a token of what the tokenizer hands over, reading its numerals.
    pub fn from_raw(raw: RawToken) -> (token: Token)
        ensures
            token == token_of(raw),
    {
        match raw {
            RawToken::Ident(name) => Token::Ident(name),
            RawToken::Function(name) => Token::Function(name),
            RawToken::Number(numeral) => match CSSFloat::from_decimal(numeral.as_str()) {
                Some(value) => Token::Number(value),
                None => Token::Other,
            },
            RawToken::Percentage(numeral) => match CSSFloat::from_decimal(numeral.as_str()) {
                Some(value) => Token::Percentage(value),
                None => Token::Other,
            },
            RawToken::Dimension(numeral, unit) => match CSSFloat::from_decimal(numeral.as_str()) {
                Some(value) => Token::Dimension(value, unit),
                None => Token::Other,
            },
            RawToken::Comma => Token::Comma,
            RawToken::CloseParenthesis => Token::CloseParenthesis,
            RawToken::Other => Token::Other,
        }
    }
}

/// A cursor over CSS text.
pub struct Parser {
    /// The whole text.
    pub input: String,
    /// The byte offset of the text that has not been read yet.
    pub position: usize,
}

impl Parser {
    /// The cursor moved to the byte offset `position`.
    pub open spec fn at(self, position: usize) -> Parser {
        Parser { input: self.input, position }
    }

    /// Whether `n` bytes, one at least, lie between the cursor and the end of
    /// the text.
    pub open spec fn holds(self, n: usize) -> bool {
        0 < n && self.position + n <= byte_len(self.input@) <= usize::MAX
    }

    /// What `next` does: the next token and the cursor after it; at the end
    /// of the text no token, and the cursor as it is.
    pub open spec fn spec_next(self) -> (Result<Token, ()>, Parser) {
        match css_token_at(self.input@, self.position) {
            Some((raw, n)) => if self.holds(n) {
                (Ok(token_of(raw)), self.at((self.position + n) as usize))
            } else {
                (Err(()), self)
            },
            None => (Err(()), self),
        }
    }

    /// What `next_color` does: the color that stands next and the cursor
    /// after it; where none stands next no color, and the cursor as it is.
    pub open spec fn spec_next_color(self) -> (Option<Color>, Parser) {
        match css_color_at(self.input@, self.position) {
            Some((color, n)) => if self.holds(n) {
                (Some(color), self.at((self.position + n) as usize))
            } else {
                (None, self)
            },
            None => (None, self),
        }
    }

    /// What `next_url` does: the URL that stands next and the cursor after
    /// it; where none stands next no URL, and the cursor as it is.
    pub open spec fn spec_next_url(self) -> (Option<Seq<char>>, Parser) {
        match css_url_at(self.input@, self.position) {
            Some((url, n)) => if self.holds(n) {
                (Some(url@), self.at((self.position + n) as usize))
            } else {
                (None, self)
            },
            None => (None, self),
        }
    }

    /// The number of bytes that have not been read yet.
    pub open spec fn remaining(self) -> nat {
        if self.position <= byte_len(self.input@) {
            (byte_len(self.input@) - self.position) as nat
        } else {
            0
        }
    }

    /// A cursor at the start of `css`.
    pub fn new(css: &str) -> (parser: Parser)
        ensures
            parser.input@ == css@,
            parser.position == 0,
    {
        Parser { input: css.to_owned(), position: 0 }
    }

    /// The byte offset of the text that has not been read yet.
    pub fn position(&self) -> (position: usize)
        ensures
            position == self.position,
    {
        self.position
    }

    /// Moves the cursor to the byte offset `position`.
    pub fn reset(&mut self, position: usize)
        ensures
            *final(self) == old(self).at(position),
    {
        self.position = position;
    }

    /// Reads the next token. At the end of the text there is none, and the
    /// cursor stays.
    pub fn next(&mut self) -> (r: Result<Token, ()>)
        ensures
            (r, *final(self)) == old(self).spec_next(),
    {
        match token_at(self.input.as_str(), self.position) {
            Some((raw, n)) => {
                self.position = self.position + n;
                Ok(Token::from_raw(raw))
            },
            None => Err(()),
        }
    }

    /// What `expect_ident` does: the name of the next token, if that is an
    /// identifier, and the cursor after the token.
    pub open spec fn spec_expect_ident(self) -> (Result<String, ()>, Parser) {
        match self.spec_next() {
            (Ok(Token::Ident(name)), rest) => (Ok(name), rest),
            (_, rest) => (Err(()), rest),
        }
    }

    /// Reads the next token, which has to be an identifier.
    pub fn expect_ident(&mut self) -> (r: Result<String, ()>)
        ensures
            (r, *final(self)) == old(self).spec_expect_ident(),
    {
        match self.next() {
            Ok(Token::Ident(name)) => Ok(name),
            _ => Err(()),
        }
    }

    /// What `expect_ident_matching` does: whether the next token is the
    /// identifier `expected`, up to ASCII case, and the cursor after the token.
    pub open spec fn spec_expect_ident_matching(self, expected: Seq<char>) -> (
        Result<(), ()>,
        Parser,
    ) {
        match self.spec_next() {
            (Ok(Token::Ident(name)), rest) => if eq_ignoring_case(name@, expected) {
                (Ok(()), rest)
            } else {
                (Err(()), rest)
            },
            (_, rest) => (Err(()), rest),
        }
    }

    /// Reads the next token, which has to be the identifier `expected`, up to
    /// ASCII case.
    pub fn expect_ident_matching(&mut self, expected: &str) -> (r: Result<(), ()>)
        ensures
            (r, *final(self)) == old(self).spec_expect_ident_matching(expected@),
    {
        match self.next() {
            Ok(Token::Ident(name)) => if name.as_str().eq_ignore_ascii_case(expected) {
                Ok(())
            } else {
                Err(())
            },
            _ => Err(()),
        }
    }

    /// What `expect_comma` does: whether the next token is a comma, and the
    /// cursor after the token.
    pub open spec fn spec_expect_comma(self) -> (Result<(), ()>, Parser) {
        match self.spec_next() {
            (Ok(Token::Comma), rest) => (Ok(()), rest),
            (_, rest) => (Err(()), rest),
        }
    }

    /// Reads the next token, which has to be a comma.
    pub fn expect_comma(&mut self) -> (r: Result<(), ()>)
        ensures
            (r, *final(self)) == old(self).spec_expect_comma(),
    {
        match self.next() {
            Ok(Token::Comma) => Ok(()),
            _ => Err(()),
        }
    }

    /// Reads the color that stands next. Where none does, the cursor stays.
    pub fn next_color(&mut self) -> (r: Option<Color>)
        ensures
            (r, *final(self)) == old(self).spec_next_color(),
    {
        match color_at(self.input.as_str(), self.position) {
            Some((color, n)) => {
                self.position = self.position + n;
                Some(color)
            },
            None => None,
        }
    }

    /// Reads the URL that stands next. Where none does, the cursor stays.
    pub fn next_url(&mut self) -> (r: Option<String>)
        ensures
            match old(self).spec_next_url() {
                (Some(url), rest) => r matches Some(s) && s@ == url && *final(self) == rest,
                (None, rest) => r is None && *final(self) == rest,
            },
    {
        match url_at(self.input.as_str(), self.position) {
            Some((url, n)) => {
                self.position = self.position + n;
                Some(url)
            },
            None => None,
        }
    }
}

/// Reading a token moves the cursor forward within the same text, and
/// failing to read one leaves it where it is.
pub proof fn lemma_next_advances(p: Parser)
    ensures
        p.spec_next().1.input == p.input,
        p.spec_next().0 is Ok ==> p.spec_next().1.remaining() < p.remaining(),
        p.spec_next().0 is Err ==> p.spec_next().1 == p,
{
}

/// Reading a color moves the cursor forward within the same text, and
/// failing to read one leaves it where it is.
pub proof fn lemma_next_color_advances(p: Parser)
    ensures
        p.spec_next_color().1.input == p.input,
        p.spec_next_color().0 is Some ==> p.spec_next_color().1.remaining() < p.remaining(),
        p.spec_next_color().0 is None ==> p.spec_next_color().1 == p,
{
}

impl Color {
    /// The canonical CSS text of the color.
    pub open spec fn css_text(self) -> Seq<char> {
        css_color_text(self)
    }

    /// Appends the canonical CSS text of the color to `dest`.
    pub fn to_css(&self, dest: &mut String)
        ensures
            final(dest)@ == old(dest)@ + self.css_text(),
    {
        let text = color_text(*self);
        dest.append(text.as_str());
    }
}

} // verus!
