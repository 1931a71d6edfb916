//! Lengths, and the values that are a length, a percentage or a keyword.

use crate::geometry::{Au, AU_PER_PX};
use crate::keywords::{ascii_lower, keyword, lemma_keyword_found, spec_keyword};
use crate::decimal::{lemma_decimal_round_trip, spec_from_decimal};
use crate::number::CSSFloat;
use crate::tokens::{Parser, Token};
use vstd::prelude::*;
use vstd::string::StringExecFns;

verus! {

/// How many application units make one inch: an inch is 96 pixels.
pub const AU_PER_IN: i64 = AU_PER_PX * 96;

/// How many application units make one point: 72 points are an inch.
pub const AU_PER_PT: i64 = 80;

/// How many application units make one pica: a pica is 12 points.
pub const AU_PER_PC: i64 = AU_PER_PT * 12;

/// How many hundredths of a centimetre make one inch.
pub const CENTI_CM_PER_IN: u32 = 254;

/// A unit of length.
#[derive(Clone, Copy, Debug, PartialEq, Eq, Structural)]
pub enum LengthUnit {
    /// Pixels.
    Px,
    /// Inches.
    In,
    /// Centimetres.
    Cm,
    /// Millimetres.
    Mm,
    /// Points.
    Pt,
    /// Picas.
    Pc,
    /// Multiples of the font size.
    Em,
    /// Multiples of the height of the letter x.
    Ex,
    /// Multiples of the font size of the root element.
    Rem,
}

/// The keywords of [`LengthUnit`].
pub const LENGTH_UNITS: [(&'static str, LengthUnit); 9] = [
    ("px", LengthUnit::Px),
    ("in", LengthUnit::In),
    ("cm", LengthUnit::Cm),
    ("mm", LengthUnit::Mm),
    ("pt", LengthUnit::Pt),
    ("pc", LengthUnit::Pc),
    ("em", LengthUnit::Em),
    ("ex", LengthUnit::Ex),
    ("rem", LengthUnit::Rem),
];

/// A length as written in a style sheet.
#[derive(Clone, Copy, Debug, PartialEq, Eq, Structural)]
pub enum Length {
    /// An absolute length, in application units.
    Au(Au),
    /// A multiple of the font size.
    Em(CSSFloat),
    /// A multiple of the height of the letter x.
    Ex(CSSFloat),
    /// A multiple of the font size of the root element.
    Rem(CSSFloat),
    /// The width of a number of characters, as HTML defines it for the
    /// width of form controls. No style sheet can write it: it comes from
    /// legacy attributes only, and has no CSS text.
    ServoCharacterWidth(i32),
}

impl Length {
    /// The length of `value` in the unit `unit`. A physical unit is converted
    /// to application units, rounding toward zero; a font-relative one keeps
    /// its number.
    pub open spec fn spec_from_unit(value: CSSFloat, unit: LengthUnit) -> Length {
        match unit {
            LengthUnit::Px => Length::Au(Au::spec_from_ratio(value, AU_PER_PX as int, 1)),
            LengthUnit::In => Length::Au(Au::spec_from_ratio(value, AU_PER_IN as int, 1)),
            LengthUnit::Cm => Length::Au(
                Au::spec_from_ratio(value, AU_PER_IN * 100, CENTI_CM_PER_IN as int),
            ),
            LengthUnit::Mm => Length::Au(
                Au::spec_from_ratio(value, AU_PER_IN * 10, CENTI_CM_PER_IN as int),
            ),
            LengthUnit::Pt => Length::Au(Au::spec_from_ratio(value, AU_PER_PT as int, 1)),
            LengthUnit::Pc => Length::Au(Au::spec_from_ratio(value, AU_PER_PC as int, 1)),
            LengthUnit::Em => Length::Em(value),
            LengthUnit::Ex => Length::Ex(value),
            LengthUnit::Rem => Length::Rem(value),
        }
    }

    /// Makes the length of `value` in the unit `unit`.
    pub fn from_unit(value: CSSFloat, unit: LengthUnit) -> (r: Length)
        ensures
            r == Length::spec_from_unit(value, unit),
            !(r is ServoCharacterWidth),
    {
        match unit {
            LengthUnit::Px => Length::Au(Au::from_ratio(value, AU_PER_PX, 1)),
            LengthUnit::In => Length::Au(Au::from_ratio(value, AU_PER_IN, 1)),
            LengthUnit::Cm => Length::Au(Au::from_ratio(value, AU_PER_IN * 100, CENTI_CM_PER_IN)),
            LengthUnit::Mm => Length::Au(Au::from_ratio(value, AU_PER_IN * 10, CENTI_CM_PER_IN)),
            LengthUnit::Pt => Length::Au(Au::from_ratio(value, AU_PER_PT, 1)),
            LengthUnit::Pc => Length::Au(Au::from_ratio(value, AU_PER_PC, 1)),
            LengthUnit::Em => Length::Em(value),
            LengthUnit::Ex => Length::Ex(value),
            LengthUnit::Rem => Length::Rem(value),
        }
    }

    /// The absolute length of `px_value` pixels.
    pub open spec fn spec_from_px(px_value: CSSFloat) -> Length {
        Length::spec_from_unit(px_value, LengthUnit::Px)
    }

    /// Makes the absolute length of `px_value` pixels.
    pub fn from_px(px_value: CSSFloat) -> (r: Length)
        ensures
            r == Length::spec_from_px(px_value),
            r is Au,
    {
        Length::from_unit(px_value, LengthUnit::Px)
    }

    /// The length of `value` in the unit that `unit` names, whatever its
    /// case; an error if `unit` names no unit of length.
    pub open spec fn spec_parse_dimension(value: CSSFloat, unit: Seq<char>) -> Result<Length, ()> {
        match spec_keyword(LENGTH_UNITS@, unit) {
            Some(known) => Ok(Length::spec_from_unit(value, known)),
            None => Err(()),
        }
    }

    /// Makes a length of a number and the name of its unit.
    pub fn parse_dimension(value: CSSFloat, unit: &str) -> (r: Result<Length, ()>)
        ensures
            r == Length::spec_parse_dimension(value, unit@),
            r matches Ok(length) ==> !(length is ServoCharacterWidth),
    {
        match keyword(&LENGTH_UNITS, unit) {
            Some(known) => Ok(Length::from_unit(value, known)),
            None => Err(()),
        }
    }

    /// The length that `token` writes: a number with a unit of length, which
    /// may be negative only if `negative_ok`, or the number zero.
    pub open spec fn spec_from_token(token: Token, negative_ok: bool) -> Result<Length, ()> {
        match token {
            Token::Dimension(value, unit) => if negative_ok || !value.is_negative() {
                Length::spec_parse_dimension(value, unit@)
            } else {
                Err(())
            },
            Token::Number(value) => if value.is_zero() {
                Ok(Length::Au(Au(0)))
            } else {
                Err(())
            },
            _ => Err(()),
        }
    }

    /// Makes a length of one token.
    pub fn from_token(token: &Token, negative_ok: bool) -> (r: Result<Length, ()>)
        ensures
            r == Length::spec_from_token(*token, negative_ok),
            r matches Ok(length) ==> !(length is ServoCharacterWidth),
    {
        match token {
            Token::Dimension(value, unit) => if negative_ok || !value.is_negative() {
                Length::parse_dimension(*value, unit.as_str())
            } else {
                Err(())
            },
            Token::Number(value) => if value.is_zero() {
                Ok(Length::Au(Au(0)))
            } else {
                Err(())
            },
            _ => Err(()),
        }
    }

    /// What parsing does: the length that the next token writes, and the
    /// cursor after the token.
    pub open spec fn spec_parse(p: Parser, negative_ok: bool) -> (Result<Length, ()>, Parser) {
        match p.spec_next() {
            (Ok(token), rest) => (Length::spec_from_token(token, negative_ok), rest),
            (Err(_), rest) => (Err(()), rest),
        }
    }

    fn parse_internal(input: &mut Parser, negative_ok: bool) -> (r: Result<Length, ()>)
        ensures
            (r, *final(input)) == Length::spec_parse(*old(input), negative_ok),
            r matches Ok(length) ==> !(length is ServoCharacterWidth),
    {
        match input.next() {
            Ok(token) => Length::from_token(&token, negative_ok),
            Err(()) => Err(()),
        }
    }

    /// Reads a length of any sign.
    pub fn parse(input: &mut Parser) -> (r: Result<Length, ()>)
        ensures
            (r, *final(input)) == Length::spec_parse(*old(input), true),
            r matches Ok(length) ==> !(length is ServoCharacterWidth),
    {
        Length::parse_internal(input, true)
    }

    /// Reads a length that is not negative.
    pub fn parse_non_negative(input: &mut Parser) -> (r: Result<Length, ()>)
        ensures
            (r, *final(input)) == Length::spec_parse(*old(input), false),
            r matches Ok(length) ==> !(length is ServoCharacterWidth),
    {
        Length::parse_internal(input, false)
    }

    /// The unit in which the length is written.
    pub open spec fn css_unit(self) -> LengthUnit
        recommends
            !(self is ServoCharacterWidth),
    {
        match self {
            Length::Au(_) => LengthUnit::Px,
            Length::Em(_) => LengthUnit::Em,
            Length::Ex(_) => LengthUnit::Ex,
            _ => LengthUnit::Rem,
        }
    }

    /// The number that is written before the unit: the pixels of an absolute
    /// length, the multiple of a font-relative one.
    pub open spec fn css_number(self) -> CSSFloat
        recommends
            !(self is ServoCharacterWidth),
    {
        match self {
            Length::Au(length) => length.spec_to_subpx(),
            Length::Em(value) => value,
            Length::Ex(value) => value,
            Length::Rem(value) => value,
            Length::ServoCharacterWidth(_) => CSSFloat { nanos: 0 },
        }
    }

    /// Whether `token` is the token of the length's CSS text: a number with
    /// a unit, the number and the unit being those of the length.
    pub open spec fn is_written_by(self, token: Token) -> bool {
        &&& !(self is ServoCharacterWidth)
        &&& token matches Token::Dimension(number, unit)
        &&& number == self.css_number()
        &&& unit@ == self.css_unit().css_text()
    }

    /// The canonical CSS text of the length: its number and its unit.
    pub open spec fn css_text(self) -> Seq<char>
        recommends
            !(self is ServoCharacterWidth),
    {
        self.css_number().css_text() + self.css_unit().css_text()
    }

    /// Appends the canonical CSS text of the length to `dest`. A character
    /// width has none.
    pub fn to_css(&self, dest: &mut String)
        requires
            !(*self is ServoCharacterWidth),
        ensures
            final(dest)@ == old(dest)@ + self.css_text(),
    {
        match self {
            Length::Au(length) => {
                length.to_subpx().to_css(dest);
                LengthUnit::Px.to_css(dest);
            },
            Length::Em(value) => {
                value.to_css(dest);
                LengthUnit::Em.to_css(dest);
            },
            Length::Ex(value) => {
                value.to_css(dest);
                LengthUnit::Ex.to_css(dest);
            },
            Length::Rem(value) => {
                value.to_css(dest);
                LengthUnit::Rem.to_css(dest);
            },
            Length::ServoCharacterWidth(_) => {},
        }
        proof {
            assert(final(dest)@ =~= old(dest)@ + self.css_text());
        }
    }
}

impl LengthUnit {
    /// The place of the unit in [`LENGTH_UNITS`].
    pub open spec fn spec_index(self) -> int {
        match self {
            LengthUnit::Px => 0,
            LengthUnit::In => 1,
            LengthUnit::Cm => 2,
            LengthUnit::Mm => 3,
            LengthUnit::Pt => 4,
            LengthUnit::Pc => 5,
            LengthUnit::Em => 6,
            LengthUnit::Ex => 7,
            LengthUnit::Rem => 8,
        }
    }

    fn index(self) -> (i: usize)
        ensures
            i == self.spec_index(),
    {
        match self {
            LengthUnit::Px => 0,
            LengthUnit::In => 1,
            LengthUnit::Cm => 2,
            LengthUnit::Mm => 3,
            LengthUnit::Pt => 4,
            LengthUnit::Pc => 5,
            LengthUnit::Em => 6,
            LengthUnit::Ex => 7,
            LengthUnit::Rem => 8,
        }
    }

    /// The name of the unit.
    pub open spec fn css_text(self) -> Seq<char> {
        LENGTH_UNITS@[self.spec_index()].0@
    }

    /// Appends the name of the unit to `dest`.
    pub fn to_css(&self, dest: &mut String)
        ensures
            final(dest)@ == old(dest)@ + self.css_text(),
    {
        dest.append(LENGTH_UNITS[self.index()].0);
    }
}

/// Each unit of length is what its own name names.
pub proof fn lemma_length_unit_round_trip(unit: LengthUnit)
    ensures
        spec_keyword(LENGTH_UNITS@, unit.css_text()) == Some(unit),
{
    reveal_strlit("px");
    reveal_strlit("in");
    reveal_strlit("cm");
    reveal_strlit("mm");
    reveal_strlit("pt");
    reveal_strlit("pc");
    reveal_strlit("em");
    reveal_strlit("ex");
    reveal_strlit("rem");
    let table = LENGTH_UNITS@;
    assert forall|i: int| 0 <= i < table.len() implies ascii_lower(#[trigger] table[i].0@[0])
        == table[i].0@[0] && ascii_lower(table[i].0@[1]) == table[i].0@[1] by {}
    let name = unit.css_text();
    assert(ascii_lower(name[0]) == name[0] && ascii_lower(name[1]) == name[1]);
    lemma_keyword_found(table, unit.spec_index());
}

/// A length that has CSS text is what the number and the unit of its text
/// say: writing a length and reading it again gives the length back. A
/// length that is not negative reads back where none may be negative, too.
pub proof fn lemma_length_round_trip(length: Length, token: Token)
    requires
        length.is_written_by(token),
    ensures
        Length::spec_from_token(token, true) == Ok::<Length, ()>(length),
        !length.css_number().is_negative() ==> Length::spec_from_token(token, false) == Ok::<
            Length,
            (),
        >(length),
{
    lemma_length_unit_round_trip(length.css_unit());
    if let Length::Au(absolute) = length {
        crate::geometry::lemma_px_round_trip(absolute);
    }
}

/// The text of a length is a numeral and the name of a unit, of which the
/// numeral reads back as the number that was written, and that number with
/// that unit as the length.
pub proof fn lemma_length_text_round_trip(length: Length)
    requires
        !(length is ServoCharacterWidth),
    ensures
        ({
            let numeral = length.css_number().css_text();
            let unit = length.css_unit().css_text();
            &&& length.css_text() == numeral + unit
            &&& spec_from_decimal(numeral) == Some(length.css_number())
            &&& Length::spec_parse_dimension(length.css_number(), unit) == Ok::<Length, ()>(length)
        }),
{
    lemma_decimal_round_trip(length.css_number());
    lemma_length_unit_round_trip(length.css_unit());
    if let Length::Au(absolute) = length {
        crate::geometry::lemma_px_round_trip(absolute);
    }
}

/// An inch is 96 pixels, a pica is 12 points, and 72 points are an inch:
/// a number of the greater unit is the same length as that many times the
/// number of the smaller one, as long as the product can be written.
pub proof fn lemma_unit_algebra(value: CSSFloat)
    requires
        i64::MIN <= 96 * value.nanos <= i64::MAX,
    ensures
        Length::spec_from_unit(value, LengthUnit::In) == Length::spec_from_unit(
            CSSFloat { nanos: (96 * value.nanos) as i64 },
            LengthUnit::Px,
        ),
        Length::spec_from_unit(value, LengthUnit::Pc) == Length::spec_from_unit(
            CSSFloat { nanos: (12 * value.nanos) as i64 },
            LengthUnit::Pt,
        ),
        Length::spec_from_unit(value, LengthUnit::In) == Length::spec_from_unit(
            CSSFloat { nanos: (72 * value.nanos) as i64 },
            LengthUnit::Pt,
        ),
        AU_PER_IN == 96 * AU_PER_PX,
        AU_PER_PC == 12 * AU_PER_PT,
        AU_PER_IN == 72 * AU_PER_PT,
{
}

/// A negative number with a unit is refused where the length may not be
/// negative, and is read as any other number where it may.
pub proof fn lemma_negative_dimension(p: Parser, value: CSSFloat, unit: String)
    requires
        p.spec_next().0 == Ok::<Token, ()>(Token::Dimension(value, unit)),
        value.is_negative(),
    ensures
        Length::spec_parse(p, false).0 is Err,
        Length::spec_parse(p, true).0 == Length::spec_parse_dimension(value, unit@),
        spec_keyword(LENGTH_UNITS@, unit@) is Some ==> Length::spec_parse(p, true).0 is Ok,
{
}

} // verus!
