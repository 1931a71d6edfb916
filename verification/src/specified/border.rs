//! Border styles and border widths.

use crate::keywords::{ascii_lower, keyword, lemma_keyword_found, spec_keyword};
use crate::number::CSSFloat;
use crate::specified::length::Length;
use crate::tokens::Parser;
use vstd::prelude::*;
use vstd::string::StringExecFns;

verus! {

/// The style of a border.
#[allow(non_camel_case_types)]
#[derive(Clone, Copy, Debug, PartialEq, Eq, Structural)]
pub enum BorderStyle {
    /// `none`
    none,
    /// `solid`
    solid,
    /// `double`
    double,
    /// `dotted`
    dotted,
    /// `dashed`
    dashed,
    /// `hidden`
    hidden,
    /// `groove`
    groove,
    /// `ridge`
    ridge,
    /// `inset`
    inset,
    /// `outset`
    outset,
}

/// The keywords of [`BorderStyle`].
pub const BORDER_STYLES: [(&'static str, BorderStyle); 10] = [
    ("none", BorderStyle::none),
    ("solid", BorderStyle::solid),
    ("double", BorderStyle::double),
    ("dotted", BorderStyle::dotted),
    ("dashed", BorderStyle::dashed),
    ("hidden", BorderStyle::hidden),
    ("groove", BorderStyle::groove),
    ("ridge", BorderStyle::ridge),
    ("inset", BorderStyle::inset),
    ("outset", BorderStyle::outset),
];

/// The keywords of a border width, each with its width in billionths of a
/// pixel.
pub const BORDER_WIDTHS: [(&'static str, i64); 3] = [
    ("thin", 1_000_000_000),
    ("medium", 3_000_000_000),
    ("thick", 5_000_000_000),
];

impl BorderStyle {
    /// The place of the style in [`BORDER_STYLES`].
    pub open spec fn spec_index(self) -> int {
        match self {
            BorderStyle::none => 0,
            BorderStyle::solid => 1,
            BorderStyle::double => 2,
            BorderStyle::dotted => 3,
            BorderStyle::dashed => 4,
            BorderStyle::hidden => 5,
            BorderStyle::groove => 6,
            BorderStyle::ridge => 7,
            BorderStyle::inset => 8,
            BorderStyle::outset => 9,
        }
    }

    fn index(self) -> (i: usize)
        ensures
            i == self.spec_index(),
    {
        match self {
            BorderStyle::none => 0,
            BorderStyle::solid => 1,
            BorderStyle::double => 2,
            BorderStyle::dotted => 3,
            BorderStyle::dashed => 4,
            BorderStyle::hidden => 5,
            BorderStyle::groove => 6,
            BorderStyle::ridge => 7,
            BorderStyle::inset => 8,
            BorderStyle::outset => 9,
        }
    }

    /// The keyword of the style.
    pub open spec fn css_text(self) -> Seq<char> {
        BORDER_STYLES@[self.spec_index()].0@
    }

    /// Appends the keyword of the style to `dest`.
    pub fn to_css(&self, dest: &mut String)
        ensures
            final(dest)@ == old(dest)@ + self.css_text(),
    {
        dest.append(BORDER_STYLES[self.index()].0);
    }

    /// The style that the identifier `ident` names.
    pub open spec fn spec_from_ident(ident: Seq<char>) -> Option<BorderStyle> {
        spec_keyword(BORDER_STYLES@, ident)
    }

    /// Looks up the style that `ident` names, whatever its case.
    pub fn from_ident(ident: &str) -> (r: Option<BorderStyle>)
        ensures
            r == BorderStyle::spec_from_ident(ident@),
    {
        keyword(&BORDER_STYLES, ident)
    }

    /// What `parse` does: the style that the next token names, if that is an
    /// identifier and names one, and the cursor after the token.
    pub open spec fn spec_parse(p: Parser) -> (Result<BorderStyle, ()>, Parser) {
        match p.spec_expect_ident() {
            (Ok(name), rest) => (
                match BorderStyle::spec_from_ident(name@) {
                    Some(style) => Ok(style),
                    None => Err(()),
                },
                rest,
            ),
            (Err(_), rest) => (Err(()), rest),
        }
    }

    /// Reads one identifier, which has to name a border style.
    pub fn parse(input: &mut Parser) -> (r: Result<BorderStyle, ()>)
        ensures
            (r, *final(input)) == BorderStyle::spec_parse(*old(input)),
    {
        match input.expect_ident() {
            Ok(name) => match BorderStyle::from_ident(name.as_str()) {
                Some(style) => Ok(style),
                None => Err(()),
            },
            Err(()) => Err(()),
        }
    }
}

/// The width that the identifier `ident` names: `thin` is one pixel,
/// `medium` three, `thick` five.
pub open spec fn spec_border_width_keyword(ident: Seq<char>) -> Result<Length, ()> {
    match spec_keyword(BORDER_WIDTHS@, ident) {
        Some(nanos) => Ok(Length::spec_from_px(CSSFloat { nanos })),
        None => Err(()),
    }
}

/// Looks up the border width that `ident` names, whatever its case.
pub fn border_width_keyword(ident: &str) -> (r: Result<Length, ()>)
    ensures
        r == spec_border_width_keyword(ident@),
        r matches Ok(length) ==> length is Au,
{
    match keyword(&BORDER_WIDTHS, ident) {
        Some(nanos) => Ok(Length::from_px(CSSFloat { nanos })),
        None => Err(()),
    }
}

/// What `parse_border_width` does: a length that is not negative, if the
/// next token writes one; else the width that the next token names, if that
/// is an identifier and names one. The cursor ends after the token.
pub open spec fn spec_parse_border_width(p: Parser) -> (Result<Length, ()>, Parser) {
    match Length::spec_parse(p, false) {
        (Ok(length), rest) => (Ok(length), rest),
        (Err(_), _) => match p.spec_expect_ident() {
            (Ok(name), rest) => (spec_border_width_keyword(name@), rest),
            (Err(_), rest) => (Err(()), rest),
        },
    }
}

/// Reads the width of a border: a length that is not negative, or one of
/// `thin`, `medium` and `thick`.
pub fn parse_border_width(input: &mut Parser) -> (r: Result<Length, ()>)
    ensures
        (r, *final(input)) == spec_parse_border_width(*old(input)),
        r matches Ok(length) ==> !(length is ServoCharacterWidth),
{
    let start = input.position();
    match Length::parse_non_negative(input) {
        Ok(length) => Ok(length),
        Err(()) => {
            input.reset(start);
            match input.expect_ident() {
                Ok(name) => border_width_keyword(name.as_str()),
                Err(()) => Err(()),
            }
        },
    }
}

/// Each border style is what its own keyword names.
pub proof fn lemma_border_style_round_trip(style: BorderStyle)
    ensures
        BorderStyle::spec_from_ident(style.css_text()) == Some(style),
{
    reveal_strlit("none");
    reveal_strlit("solid");
    reveal_strlit("double");
    reveal_strlit("dotted");
    reveal_strlit("dashed");
    reveal_strlit("hidden");
    reveal_strlit("groove");
    reveal_strlit("ridge");
    reveal_strlit("inset");
    reveal_strlit("outset");
    let table = BORDER_STYLES@;
    let name = style.css_text();
    assert(ascii_lower(name[0]) == name[0] && ascii_lower(name[1]) == name[1] && ascii_lower(
        name[2],
    ) == name[2]);
    lemma_keyword_found(table, style.spec_index());
}

} // verus!
