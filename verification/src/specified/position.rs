//! One component of a position, such as that of a background.

use crate::number::CSSFloat;
use crate::specified::length::Length;
use crate::specified::length_or_percentage::{LengthOrPercentage, ValueOrKeyword};
use crate::tokens::{Parser, Token};
use vstd::prelude::*;

verus! {

/// One component of a position: a length, a percentage, or the keyword of a
/// side or of the centre.
#[derive(Clone, Copy, Debug, PartialEq, Eq, Structural)]
pub enum PositionComponent {
    /// A length.
    Length(Length),
    /// A percentage, as a fraction: 0.5 for `50%`.
    Percentage(CSSFloat),
    /// `center`
    Center,
    /// `left`
    Left,
    /// `right`
    Right,
    /// `top`
    Top,
    /// `bottom`
    Bottom,
}

/// The keywords of [`PositionComponent`].
pub const POSITION_KEYWORDS: [(&'static str, PositionComponent); 5] = [
    ("center", PositionComponent::Center),
    ("left", PositionComponent::Left),
    ("right", PositionComponent::Right),
    ("top", PositionComponent::Top),
    ("bottom", PositionComponent::Bottom),
];

impl PositionComponent {
    /// The position component that `token` writes: a length or a percentage
    /// of any sign, or one of the five keywords.
    pub open spec fn spec_from_token(token: Token) -> Result<PositionComponent, ()> {
        match ValueOrKeyword::spec_from_token(token, true, POSITION_KEYWORDS@) {
            Ok(ValueOrKeyword::Length(length)) => Ok(PositionComponent::Length(length)),
            Ok(ValueOrKeyword::Percentage(fraction)) => Ok(PositionComponent::Percentage(fraction)),
            Ok(ValueOrKeyword::Keyword(side)) => Ok(side),
            Err(_) => Err(()),
        }
    }

    /// Makes a position component of one token.
    pub fn from_token(token: &Token) -> (r: Result<PositionComponent, ()>)
        ensures
            r == PositionComponent::spec_from_token(*token),
    {
        match ValueOrKeyword::from_token(token, true, &POSITION_KEYWORDS) {
            Ok(ValueOrKeyword::Length(length)) => Ok(PositionComponent::Length(length)),
            Ok(ValueOrKeyword::Percentage(fraction)) => Ok(PositionComponent::Percentage(fraction)),
            Ok(ValueOrKeyword::Keyword(side)) => Ok(side),
            Err(()) => Err(()),
        }
    }

    /// What `parse` does: the position component that the next token writes,
    /// and the cursor after the token.
    pub open spec fn spec_parse(p: Parser) -> (Result<PositionComponent, ()>, Parser) {
        match p.spec_next() {
            (Ok(token), rest) => (PositionComponent::spec_from_token(token), rest),
            (Err(_), rest) => (Err(()), rest),
        }
    }

    /// Reads a position component.
    pub fn parse(input: &mut Parser) -> (r: Result<PositionComponent, ()>)
        ensures
            (r, *final(input)) == PositionComponent::spec_parse(*old(input)),
    {
        match input.next() {
            Ok(token) => PositionComponent::from_token(&token),
            Err(()) => Err(()),
        }
    }

    /// The length or percentage that the component stands for: a keyword is
    /// the percentage of its side, 0% for left and top, 50% for the centre,
    /// 100% for right and bottom.
    pub open spec fn spec_to_length_or_percentage(self) -> LengthOrPercentage {
        match self {
            PositionComponent::Length(length) => LengthOrPercentage::Length(length),
            PositionComponent::Percentage(fraction) => LengthOrPercentage::Percentage(fraction),
            PositionComponent::Center => LengthOrPercentage::Percentage(
                CSSFloat { nanos: 500_000_000 },
            ),
            PositionComponent::Left | PositionComponent::Top => LengthOrPercentage::Percentage(
                CSSFloat { nanos: 0 },
            ),
            PositionComponent::Right | PositionComponent::Bottom => LengthOrPercentage::Percentage(
                CSSFloat { nanos: 1_000_000_000 },
            ),
        }
    }

    /// Replaces a keyword by the percentage of its side.
    pub fn to_length_or_percentage(self) -> (r: LengthOrPercentage)
        ensures
            r == self.spec_to_length_or_percentage(),
    {
        match self {
            PositionComponent::Length(length) => LengthOrPercentage::Length(length),
            PositionComponent::Percentage(fraction) => LengthOrPercentage::Percentage(fraction),
            PositionComponent::Center => LengthOrPercentage::Percentage(
                CSSFloat { nanos: 500_000_000 },
            ),
            PositionComponent::Left | PositionComponent::Top => LengthOrPercentage::Percentage(
                CSSFloat { nanos: 0 },
            ),
            PositionComponent::Right | PositionComponent::Bottom => LengthOrPercentage::Percentage(
                CSSFloat { nanos: 1_000_000_000 },
            ),
        }
    }
}

} // verus!
