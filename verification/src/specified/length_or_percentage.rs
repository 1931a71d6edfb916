//! Values that are a length, a percentage, or one of a set of keywords.
//!
//! The three unions of this file and the position component read their
//! token in the same way, [`ValueOrKeyword::from_token`], each with its own
//! set of keywords.

use crate::geometry::Au;
use crate::decimal::{lemma_decimal_round_trip, spec_from_decimal};
use crate::keywords::{keyword, spec_keyword};
use crate::specified::length::{lemma_length_round_trip, LENGTH_UNITS};
use crate::number::CSSFloat;
use crate::specified::length::Length;
use crate::tokens::{Parser, Token};
use vstd::prelude::*;
use vstd::string::StringExecFns;

verus! {

/// A length, a percentage, or a keyword of the set `K`.
#[derive(Debug, PartialEq, Eq)]
pub enum ValueOrKeyword<K> {
    /// A length.
    Length(Length),
    /// A percentage, as a fraction: 0.5 for `50%`.
    Percentage(CSSFloat),
    /// A keyword.
    Keyword(K),
}

impl<K: Copy> ValueOrKeyword<K> {
    /// The value that `token` writes. The alternatives are tried in this
    /// order, and the first whose kind of token it is decides:
    /// a number with a unit, which has to be a unit of length;
    /// a percentage; the number zero; an identifier, which has to be one of
    /// `keywords`. A negative number with a unit and a negative percentage
    /// are accepted only if `negative_ok`.
    pub open spec fn spec_from_token(
        token: Token,
        negative_ok: bool,
        keywords: Seq<(&'static str, K)>,
    ) -> Result<ValueOrKeyword<K>, ()> {
        match token {
            Token::Dimension(value, unit) => if negative_ok || !value.is_negative() {
                match Length::spec_parse_dimension(value, unit@) {
                    Ok(length) => Ok(ValueOrKeyword::Length(length)),
                    Err(_) => Err(()),
                }
            } else {
                Err(())
            },
            Token::Percentage(value) => if negative_ok || !value.is_negative() {
                Ok(ValueOrKeyword::Percentage(value))
            } else {
                Err(())
            },
            Token::Number(value) => if value.is_zero() {
                Ok(ValueOrKeyword::Length(Length::Au(Au(0))))
            } else {
                Err(())
            },
            Token::Ident(name) => match spec_keyword(keywords, name@) {
                Some(found) => Ok(ValueOrKeyword::Keyword(found)),
                None => Err(()),
            },
            _ => Err(()),
        }
    }

    /// Makes a length, a percentage or a keyword of one token.
    pub fn from_token(token: &Token, negative_ok: bool, keywords: &[(&'static str, K)]) -> (r:
        Result<ValueOrKeyword<K>, ()>)
        ensures
            r == ValueOrKeyword::spec_from_token(*token, negative_ok, keywords@),
            r matches Ok(ValueOrKeyword::Length(length)) ==> !(length is ServoCharacterWidth),
    {
        match token {
            Token::Dimension(value, unit) => if negative_ok || !value.is_negative() {
                match Length::parse_dimension(*value, unit.as_str()) {
                    Ok(length) => Ok(ValueOrKeyword::Length(length)),
                    Err(()) => Err(()),
                }
            } else {
                Err(())
            },
            Token::Percentage(value) => if negative_ok || !value.is_negative() {
                Ok(ValueOrKeyword::Percentage(*value))
            } else {
                Err(())
            },
            Token::Number(value) => if value.is_zero() {
                Ok(ValueOrKeyword::Length(Length::Au(Au(0))))
            } else {
                Err(())
            },
            Token::Ident(name) => match keyword(keywords, name.as_str()) {
                Some(found) => Ok(ValueOrKeyword::Keyword(found)),
                None => Err(()),
            },
            _ => Err(()),
        }
    }
}

/// The canonical CSS text of the percentage `fraction`: a hundred times the
/// fraction, saturated, and a percent sign.
pub open spec fn percentage_text(fraction: CSSFloat) -> Seq<char> {
    fraction.scaled(100, 1).css_text() + seq!['%']
}

/// Appends the canonical CSS text of the percentage `fraction` to `dest`.
pub fn write_percentage(fraction: CSSFloat, dest: &mut String)
    ensures
        final(dest)@ == old(dest)@ + percentage_text(fraction),
{
    fraction.scale(100, 1).to_css(dest);
    dest.push('%');
    proof {
        assert(final(dest)@ =~= old(dest)@ + percentage_text(fraction));
    }
}

/// The keywords of [`LengthOrPercentage`]: none.
pub const NO_KEYWORDS: [(&'static str, ()); 0] = [];

/// The keywords of [`LengthOrPercentageOrAuto`].
pub const AUTO_KEYWORD: [(&'static str, ()); 1] = [("auto", ())];

/// The keywords of [`LengthOrPercentageOrNone`].
pub const NONE_KEYWORD: [(&'static str, ()); 1] = [("none", ())];

/// A length or a percentage.
#[derive(Clone, Copy, Debug, PartialEq, Eq, Structural)]
pub enum LengthOrPercentage {
    /// A length.
    Length(Length),
    /// A percentage, as a fraction: 0.5 for `50%`.
    Percentage(CSSFloat),
}

/// A length, a percentage, or `auto`.
#[derive(Clone, Copy, Debug, PartialEq, Eq, Structural)]
pub enum LengthOrPercentageOrAuto {
    /// A length.
    Length(Length),
    /// A percentage, as a fraction: 0.5 for `50%`.
    Percentage(CSSFloat),
    /// The keyword `auto`.
    Auto,
}

/// A length, a percentage, or `none`.
#[allow(non_camel_case_types)]
#[derive(Clone, Copy, Debug, PartialEq, Eq, Structural)]
pub enum LengthOrPercentageOrNone {
    /// A length.
    Length(Length),
    /// A percentage, as a fraction: 0.5 for `50%`.
    Percentage(CSSFloat),
    /// The keyword `none`.
    none,
}

impl LengthOrPercentage {
    /// The length or percentage that `token` writes.
    pub open spec fn spec_from_token(token: Token, negative_ok: bool) -> Result<
        LengthOrPercentage,
        (),
    > {
        match ValueOrKeyword::spec_from_token(token, negative_ok, NO_KEYWORDS@) {
            Ok(ValueOrKeyword::Length(length)) => Ok(LengthOrPercentage::Length(length)),
            Ok(ValueOrKeyword::Percentage(fraction)) => Ok(
                LengthOrPercentage::Percentage(fraction),
            ),
            _ => Err(()),
        }
    }

    /// Makes a length or a percentage of one token.
    pub fn from_token(token: &Token, negative_ok: bool) -> (r: Result<LengthOrPercentage, ()>)
        ensures
            r == LengthOrPercentage::spec_from_token(*token, negative_ok),
            r matches Ok(value) ==> value.has_css_text(),
    {
        match ValueOrKeyword::from_token(token, negative_ok, &NO_KEYWORDS) {
            Ok(ValueOrKeyword::Length(length)) => Ok(LengthOrPercentage::Length(length)),
            Ok(ValueOrKeyword::Percentage(fraction)) => Ok(
                LengthOrPercentage::Percentage(fraction),
            ),
            _ => Err(()),
        }
    }

    /// What parsing does: the value that the next token writes, and the
    /// cursor after the token.
    pub open spec fn spec_parse(p: Parser, negative_ok: bool) -> (
        Result<LengthOrPercentage, ()>,
        Parser,
    ) {
        match p.spec_next() {
            (Ok(token), rest) => (LengthOrPercentage::spec_from_token(token, negative_ok), rest),
            (Err(_), rest) => (Err(()), rest),
        }
    }

    fn parse_internal(input: &mut Parser, negative_ok: bool) -> (r: Result<LengthOrPercentage, ()>)
        ensures
            (r, *final(input)) == LengthOrPercentage::spec_parse(*old(input), negative_ok),
            r matches Ok(value) ==> value.has_css_text(),
    {
        match input.next() {
            Ok(token) => LengthOrPercentage::from_token(&token, negative_ok),
            Err(()) => Err(()),
        }
    }

    /// Reads a length or a percentage of any sign.
    pub fn parse(input: &mut Parser) -> (r: Result<LengthOrPercentage, ()>)
        ensures
            (r, *final(input)) == LengthOrPercentage::spec_parse(*old(input), true),
            r matches Ok(value) ==> value.has_css_text(),
    {
        LengthOrPercentage::parse_internal(input, true)
    }

    /// Reads a length or a percentage that is not negative.
    pub fn parse_non_negative(input: &mut Parser) -> (r: Result<LengthOrPercentage, ()>)
        ensures
            (r, *final(input)) == LengthOrPercentage::spec_parse(*old(input), false),
            r matches Ok(value) ==> value.has_css_text(),
    {
        LengthOrPercentage::parse_internal(input, false)
    }

    /// Whether the value has CSS text: a character width has none.
    pub open spec fn has_css_text(self) -> bool {
        !(self matches LengthOrPercentage::Length(Length::ServoCharacterWidth(_)))
    }

    /// The canonical CSS text of the value.
    pub open spec fn css_text(self) -> Seq<char>
        recommends
            self.has_css_text(),
    {
        match self {
            LengthOrPercentage::Length(length) => length.css_text(),
            LengthOrPercentage::Percentage(fraction) => percentage_text(fraction),
        }
    }

    /// Appends the canonical CSS text of the value to `dest`.
    pub fn to_css(&self, dest: &mut String)
        requires
            self.has_css_text(),
        ensures
            final(dest)@ == old(dest)@ + self.css_text(),
    {
        match self {
            LengthOrPercentage::Length(length) => length.to_css(dest),
            LengthOrPercentage::Percentage(fraction) => write_percentage(*fraction, dest),
        }
    }
}

impl LengthOrPercentageOrAuto {
    /// The length, percentage or `auto` that `token` writes.
    pub open spec fn spec_from_token(token: Token, negative_ok: bool) -> Result<
        LengthOrPercentageOrAuto,
        (),
    > {
        match ValueOrKeyword::spec_from_token(token, negative_ok, AUTO_KEYWORD@) {
            Ok(ValueOrKeyword::Length(length)) => Ok(LengthOrPercentageOrAuto::Length(length)),
            Ok(ValueOrKeyword::Percentage(fraction)) => Ok(
                LengthOrPercentageOrAuto::Percentage(fraction),
            ),
            Ok(ValueOrKeyword::Keyword(_)) => Ok(LengthOrPercentageOrAuto::Auto),
            Err(_) => Err(()),
        }
    }

    /// Makes a length, a percentage or `auto` of one token.
    pub fn from_token(token: &Token, negative_ok: bool) -> (r: Result<LengthOrPercentageOrAuto, ()>)
        ensures
            r == LengthOrPercentageOrAuto::spec_from_token(*token, negative_ok),
            r matches Ok(value) ==> value.has_css_text(),
    {
        match ValueOrKeyword::from_token(token, negative_ok, &AUTO_KEYWORD) {
            Ok(ValueOrKeyword::Length(length)) => Ok(LengthOrPercentageOrAuto::Length(length)),
            Ok(ValueOrKeyword::Percentage(fraction)) => Ok(
                LengthOrPercentageOrAuto::Percentage(fraction),
            ),
            Ok(ValueOrKeyword::Keyword(_)) => Ok(LengthOrPercentageOrAuto::Auto),
            Err(()) => Err(()),
        }
    }

    /// What parsing does: the value that the next token writes, and the
    /// cursor after the token.
    pub open spec fn spec_parse(p: Parser, negative_ok: bool) -> (
        Result<LengthOrPercentageOrAuto, ()>,
        Parser,
    ) {
        match p.spec_next() {
            (Ok(token), rest) => (
                LengthOrPercentageOrAuto::spec_from_token(token, negative_ok),
                rest,
            ),
            (Err(_), rest) => (Err(()), rest),
        }
    }

    fn parse_internal(input: &mut Parser, negative_ok: bool) -> (r: Result<
        LengthOrPercentageOrAuto,
        (),
    >)
        ensures
            (r, *final(input)) == LengthOrPercentageOrAuto::spec_parse(*old(input), negative_ok),
            r matches Ok(value) ==> value.has_css_text(),
    {
        match input.next() {
            Ok(token) => LengthOrPercentageOrAuto::from_token(&token, negative_ok),
            Err(()) => Err(()),
        }
    }

    /// Reads a length or a percentage of any sign, or `auto`.
    pub fn parse(input: &mut Parser) -> (r: Result<LengthOrPercentageOrAuto, ()>)
        ensures
            (r, *final(input)) == LengthOrPercentageOrAuto::spec_parse(*old(input), true),
            r matches Ok(value) ==> value.has_css_text(),
    {
        LengthOrPercentageOrAuto::parse_internal(input, true)
    }

    /// Reads a length or a percentage that is not negative, or `auto`.
    pub fn parse_non_negative(input: &mut Parser) -> (r: Result<LengthOrPercentageOrAuto, ()>)
        ensures
            (r, *final(input)) == LengthOrPercentageOrAuto::spec_parse(*old(input), false),
            r matches Ok(value) ==> value.has_css_text(),
    {
        LengthOrPercentageOrAuto::parse_internal(input, false)
    }

    /// Whether the value has CSS text: a character width has none.
    pub open spec fn has_css_text(self) -> bool {
        !(self matches LengthOrPercentageOrAuto::Length(Length::ServoCharacterWidth(_)))
    }

    /// The canonical CSS text of the value.
    pub open spec fn css_text(self) -> Seq<char>
        recommends
            self.has_css_text(),
    {
        match self {
            LengthOrPercentageOrAuto::Length(length) => length.css_text(),
            LengthOrPercentageOrAuto::Percentage(fraction) => percentage_text(fraction),
            LengthOrPercentageOrAuto::Auto => AUTO_KEYWORD@[0].0@,
        }
    }

    /// Appends the canonical CSS text of the value to `dest`.
    pub fn to_css(&self, dest: &mut String)
        requires
            self.has_css_text(),
        ensures
            final(dest)@ == old(dest)@ + self.css_text(),
    {
        match self {
            LengthOrPercentageOrAuto::Length(length) => length.to_css(dest),
            LengthOrPercentageOrAuto::Percentage(fraction) => write_percentage(*fraction, dest),
            LengthOrPercentageOrAuto::Auto => dest.append(AUTO_KEYWORD[0].0),
        }
    }
}

impl LengthOrPercentageOrNone {
    /// The length, percentage or `none` that `token` writes.
    pub open spec fn spec_from_token(token: Token, negative_ok: bool) -> Result<
        LengthOrPercentageOrNone,
        (),
    > {
        match ValueOrKeyword::spec_from_token(token, negative_ok, NONE_KEYWORD@) {
            Ok(ValueOrKeyword::Length(length)) => Ok(LengthOrPercentageOrNone::Length(length)),
            Ok(ValueOrKeyword::Percentage(fraction)) => Ok(
                LengthOrPercentageOrNone::Percentage(fraction),
            ),
            Ok(ValueOrKeyword::Keyword(_)) => Ok(LengthOrPercentageOrNone::none),
            Err(_) => Err(()),
        }
    }

    /// Makes a length, a percentage or `none` of one token.
    pub fn from_token(token: &Token, negative_ok: bool) -> (r: Result<LengthOrPercentageOrNone, ()>)
        ensures
            r == LengthOrPercentageOrNone::spec_from_token(*token, negative_ok),
            r matches Ok(value) ==> value.has_css_text(),
    {
        match ValueOrKeyword::from_token(token, negative_ok, &NONE_KEYWORD) {
            Ok(ValueOrKeyword::Length(length)) => Ok(LengthOrPercentageOrNone::Length(length)),
            Ok(ValueOrKeyword::Percentage(fraction)) => Ok(
                LengthOrPercentageOrNone::Percentage(fraction),
            ),
            Ok(ValueOrKeyword::Keyword(_)) => Ok(LengthOrPercentageOrNone::none),
            Err(()) => Err(()),
        }
    }

    /// What parsing does: the value that the next token writes, and the
    /// cursor after the token.
    pub open spec fn spec_parse(p: Parser, negative_ok: bool) -> (
        Result<LengthOrPercentageOrNone, ()>,
        Parser,
    ) {
        match p.spec_next() {
            (Ok(token), rest) => (
                LengthOrPercentageOrNone::spec_from_token(token, negative_ok),
                rest,
            ),
            (Err(_), rest) => (Err(()), rest),
        }
    }

    fn parse_internal(input: &mut Parser, negative_ok: bool) -> (r: Result<
        LengthOrPercentageOrNone,
        (),
    >)
        ensures
            (r, *final(input)) == LengthOrPercentageOrNone::spec_parse(*old(input), negative_ok),
            r matches Ok(value) ==> value.has_css_text(),
    {
        match input.next() {
            Ok(token) => LengthOrPercentageOrNone::from_token(&token, negative_ok),
            Err(()) => Err(()),
        }
    }

    /// Reads a length or a percentage of any sign, or `none`.
    pub fn parse(input: &mut Parser) -> (r: Result<LengthOrPercentageOrNone, ()>)
        ensures
            (r, *final(input)) == LengthOrPercentageOrNone::spec_parse(*old(input), true),
            r matches Ok(value) ==> value.has_css_text(),
    {
        LengthOrPercentageOrNone::parse_internal(input, true)
    }

    /// Reads a length or a percentage that is not negative, or `none`.
    pub fn parse_non_negative(input: &mut Parser) -> (r: Result<LengthOrPercentageOrNone, ()>)
        ensures
            (r, *final(input)) == LengthOrPercentageOrNone::spec_parse(*old(input), false),
            r matches Ok(value) ==> value.has_css_text(),
    {
        LengthOrPercentageOrNone::parse_internal(input, false)
    }

    /// Whether the value has CSS text: a character width has none.
    pub open spec fn has_css_text(self) -> bool {
        !(self matches LengthOrPercentageOrNone::Length(Length::ServoCharacterWidth(_)))
    }

    /// The canonical CSS text of the value.
    pub open spec fn css_text(self) -> Seq<char>
        recommends
            self.has_css_text(),
    {
        match self {
            LengthOrPercentageOrNone::Length(length) => length.css_text(),
            LengthOrPercentageOrNone::Percentage(fraction) => percentage_text(fraction),
            LengthOrPercentageOrNone::none => NONE_KEYWORD@[0].0@,
        }
    }

    /// Appends the canonical CSS text of the value to `dest`.
    pub fn to_css(&self, dest: &mut String)
        requires
            self.has_css_text(),
        ensures
            final(dest)@ == old(dest)@ + self.css_text(),
    {
        match self {
            LengthOrPercentageOrNone::Length(length) => length.to_css(dest),
            LengthOrPercentageOrNone::Percentage(fraction) => write_percentage(*fraction, dest),
            LengthOrPercentageOrNone::none => dest.append(NONE_KEYWORD[0].0),
        }
    }
}

impl LengthOrPercentage {
    /// Whether `token` is the token of the value's CSS text.
    pub open spec fn is_written_by(self, token: Token) -> bool {
        match self {
            LengthOrPercentage::Length(length) => length.is_written_by(token),
            LengthOrPercentage::Percentage(fraction) => token == Token::Percentage(fraction),
        }
    }
}

impl LengthOrPercentageOrAuto {
    /// Whether `token` is the token of the value's CSS text.
    pub open spec fn is_written_by(self, token: Token) -> bool {
        match self {
            LengthOrPercentageOrAuto::Length(length) => length.is_written_by(token),
            LengthOrPercentageOrAuto::Percentage(fraction) => token == Token::Percentage(fraction),
            LengthOrPercentageOrAuto::Auto => token matches Token::Ident(name) && name@
                == self.css_text(),
        }
    }
}

impl LengthOrPercentageOrNone {
    /// Whether `token` is the token of the value's CSS text.
    pub open spec fn is_written_by(self, token: Token) -> bool {
        match self {
            LengthOrPercentageOrNone::Length(length) => length.is_written_by(token),
            LengthOrPercentageOrNone::Percentage(fraction) => token == Token::Percentage(fraction),
            LengthOrPercentageOrNone::none => token matches Token::Ident(name) && name@
                == self.css_text(),
        }
    }
}

/// The text of a percentage is a numeral and a percent sign, and the numeral
/// reads back as a hundred times the fraction, unless that saturates.
pub proof fn lemma_percentage_text(fraction: CSSFloat)
    requires
        i64::MIN <= 100 * fraction.nanos <= i64::MAX,
    ensures
        ({
            let hundredfold = CSSFloat { nanos: (100 * fraction.nanos) as i64 };
            &&& percentage_text(fraction) == hundredfold.css_text() + seq!['%']
            &&& spec_from_decimal(hundredfold.css_text()) == Some(hundredfold)
        }),
{
    assert(fraction.nanos * 100 >= 0 <==> fraction.nanos >= 0);
    lemma_decimal_round_trip(CSSFloat { nanos: (100 * fraction.nanos) as i64 });
}

/// Writing a length or percentage and reading it again gives the value
/// back.
pub proof fn lemma_length_or_percentage_round_trip(value: LengthOrPercentage, token: Token)
    requires
        value.is_written_by(token),
    ensures
        LengthOrPercentage::spec_from_token(token, true) == Ok::<LengthOrPercentage, ()>(value),
{
    if let LengthOrPercentage::Length(length) = value {
        lemma_length_round_trip(length, token);
    }
}

/// Writing a length, percentage or `auto` and reading it again gives the
/// value back.
pub proof fn lemma_length_or_percentage_or_auto_round_trip(
    value: LengthOrPercentageOrAuto,
    token: Token,
)
    requires
        value.is_written_by(token),
    ensures
        LengthOrPercentageOrAuto::spec_from_token(token, true) == Ok::<
            LengthOrPercentageOrAuto,
            (),
        >(value),
{
    if let LengthOrPercentageOrAuto::Length(length) = value {
        lemma_length_round_trip(length, token);
    }
}

/// Writing a length, percentage or `none` and reading it again gives the
/// value back.
pub proof fn lemma_length_or_percentage_or_none_round_trip(
    value: LengthOrPercentageOrNone,
    token: Token,
)
    requires
        value.is_written_by(token),
    ensures
        LengthOrPercentageOrNone::spec_from_token(token, true) == Ok::<
            LengthOrPercentageOrNone,
            (),
        >(value),
{
    if let LengthOrPercentageOrNone::Length(length) = value {
        lemma_length_round_trip(length, token);
    }
}

/// A negative number with a unit, and a negative percentage, are refused
/// where the value may not be negative, and read as any other number where
/// it may.
pub proof fn lemma_negative_value(p: Parser, token: Token)
    requires
        p.spec_next().0 == Ok::<Token, ()>(token),
        match token {
            Token::Dimension(value, _) => value.is_negative(),
            Token::Percentage(value) => value.is_negative(),
            _ => false,
        },
    ensures
        LengthOrPercentage::spec_parse(p, false).0 is Err,
        LengthOrPercentageOrAuto::spec_parse(p, false).0 is Err,
        LengthOrPercentageOrNone::spec_parse(p, false).0 is Err,
        token matches Token::Percentage(value) ==> {
            &&& LengthOrPercentage::spec_parse(p, true).0 == Ok::<LengthOrPercentage, ()>(
                LengthOrPercentage::Percentage(value),
            )
            &&& LengthOrPercentageOrAuto::spec_parse(p, true).0 == Ok::<
                LengthOrPercentageOrAuto,
                (),
            >(LengthOrPercentageOrAuto::Percentage(value))
            &&& LengthOrPercentageOrNone::spec_parse(p, true).0 == Ok::<
                LengthOrPercentageOrNone,
                (),
            >(LengthOrPercentageOrNone::Percentage(value))
        },
        token matches Token::Dimension(_, unit) && spec_keyword(LENGTH_UNITS@, unit@) is Some ==> {
            &&& LengthOrPercentage::spec_parse(p, true).0 is Ok
            &&& LengthOrPercentageOrAuto::spec_parse(p, true).0 is Ok
            &&& LengthOrPercentageOrNone::spec_parse(p, true).0 is Ok
        },
{
}

} // verus!
