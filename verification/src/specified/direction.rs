//! The keywords that give the side or corner a gradient runs to.

use crate::keywords::{keyword, lemma_keyword_found, spec_keyword};
use crate::tokens::Parser;
use vstd::prelude::*;

verus! {

/// The horizontal half of a gradient's corner.
#[derive(Clone, Copy, Debug, PartialEq, Eq, Structural)]
pub enum HorizontalDirection {
    /// `left`
    Left,
    /// `right`
    Right,
}

/// The vertical half of a gradient's corner.
#[derive(Clone, Copy, Debug, PartialEq, Eq, Structural)]
pub enum VerticalDirection {
    /// `top`
    Top,
    /// `bottom`
    Bottom,
}

/// The keywords of [`HorizontalDirection`].
pub const HORIZONTAL_DIRECTIONS: [(&'static str, HorizontalDirection); 2] = [
    ("left", HorizontalDirection::Left),
    ("right", HorizontalDirection::Right),
];

/// The keywords of [`VerticalDirection`].
pub const VERTICAL_DIRECTIONS: [(&'static str, VerticalDirection); 2] = [
    ("top", VerticalDirection::Top),
    ("bottom", VerticalDirection::Bottom),
];

impl HorizontalDirection {
    /// The place of the direction in [`HORIZONTAL_DIRECTIONS`].
    pub open spec fn spec_index(self) -> int {
        match self {
            HorizontalDirection::Left => 0,
            HorizontalDirection::Right => 1,
        }
    }

    fn index(self) -> (i: usize)
        ensures
            i == self.spec_index(),
            HORIZONTAL_DIRECTIONS@[i as int].1 == self,
    {
        match self {
            HorizontalDirection::Left => 0,
            HorizontalDirection::Right => 1,
        }
    }

    /// The keyword of the direction.
    pub open spec fn css_text(self) -> Seq<char> {
        HORIZONTAL_DIRECTIONS@[self.spec_index()].0@
    }

    /// Appends the keyword of the direction to `dest`.
    pub fn to_css(&self, dest: &mut String)
        ensures
            final(dest)@ == old(dest)@ + self.css_text(),
    {
        dest.append(HORIZONTAL_DIRECTIONS[self.index()].0);
    }

    /// The direction that the identifier `ident` names.
    pub open spec fn spec_from_ident(ident: Seq<char>) -> Option<HorizontalDirection> {
        spec_keyword(HORIZONTAL_DIRECTIONS@, ident)
    }

    /// Looks up the direction that `ident` names, whatever its case.
    pub fn from_ident(ident: &str) -> (r: Option<HorizontalDirection>)
        ensures
            r == HorizontalDirection::spec_from_ident(ident@),
    {
        keyword(&HORIZONTAL_DIRECTIONS, ident)
    }

    /// What `parse` does: the direction that the next token names, if that
    /// is an identifier and names one, and the cursor after the token.
    pub open spec fn spec_parse(p: Parser) -> (Result<HorizontalDirection, ()>, Parser) {
        match p.spec_expect_ident() {
            (Ok(name), rest) => (
                match HorizontalDirection::spec_from_ident(name@) {
                    Some(direction) => Ok(direction),
                    None => Err(()),
                },
                rest,
            ),
            (Err(_), rest) => (Err(()), rest),
        }
    }

    /// Reads one identifier, which has to name a horizontal direction.
    pub fn parse(input: &mut Parser) -> (r: Result<HorizontalDirection, ()>)
        ensures
            (r, *final(input)) == HorizontalDirection::spec_parse(*old(input)),
    {
        match input.expect_ident() {
            Ok(name) => match HorizontalDirection::from_ident(name.as_str()) {
                Some(direction) => Ok(direction),
                None => Err(()),
            },
            Err(()) => Err(()),
        }
    }
}

/// Each horizontal direction is what its own keyword names.
pub proof fn lemma_horizontal_round_trip(direction: HorizontalDirection)
    ensures
        HorizontalDirection::spec_from_ident(direction.css_text()) == Some(direction),
{
    reveal_strlit("left");
    reveal_strlit("right");
    let table = HORIZONTAL_DIRECTIONS@;
    assert(table[0].0@.len() != table[1].0@.len());
    lemma_keyword_found(table, direction.spec_index());
}

impl VerticalDirection {
    /// The place of the direction in [`VERTICAL_DIRECTIONS`].
    pub open spec fn spec_index(self) -> int {
        match self {
            VerticalDirection::Top => 0,
            VerticalDirection::Bottom => 1,
        }
    }

    fn index(self) -> (i: usize)
        ensures
            i == self.spec_index(),
            VERTICAL_DIRECTIONS@[i as int].1 == self,
    {
        match self {
            VerticalDirection::Top => 0,
            VerticalDirection::Bottom => 1,
        }
    }

    /// The keyword of the direction.
    pub open spec fn css_text(self) -> Seq<char> {
        VERTICAL_DIRECTIONS@[self.spec_index()].0@
    }

    /// Appends the keyword of the direction to `dest`.
    pub fn to_css(&self, dest: &mut String)
        ensures
            final(dest)@ == old(dest)@ + self.css_text(),
    {
        dest.append(VERTICAL_DIRECTIONS[self.index()].0);
    }

    /// The direction that the identifier `ident` names.
    pub open spec fn spec_from_ident(ident: Seq<char>) -> Option<VerticalDirection> {
        spec_keyword(VERTICAL_DIRECTIONS@, ident)
    }

    /// Looks up the direction that `ident` names, whatever its case.
    pub fn from_ident(ident: &str) -> (r: Option<VerticalDirection>)
        ensures
            r == VerticalDirection::spec_from_ident(ident@),
    {
        keyword(&VERTICAL_DIRECTIONS, ident)
    }

    /// What `parse` does: the direction that the next token names, if that
    /// is an identifier and names one, and the cursor after the token.
    pub open spec fn spec_parse(p: Parser) -> (Result<VerticalDirection, ()>, Parser) {
        match p.spec_expect_ident() {
            (Ok(name), rest) => (
                match VerticalDirection::spec_from_ident(name@) {
                    Some(direction) => Ok(direction),
                    None => Err(()),
                },
                rest,
            ),
            (Err(_), rest) => (Err(()), rest),
        }
    }

    /// Reads one identifier, which has to name a vertical direction.
    pub fn parse(input: &mut Parser) -> (r: Result<VerticalDirection, ()>)
        ensures
            (r, *final(input)) == VerticalDirection::spec_parse(*old(input)),
    {
        match input.expect_ident() {
            Ok(name) => match VerticalDirection::from_ident(name.as_str()) {
                Some(direction) => Ok(direction),
                None => Err(()),
            },
            Err(()) => Err(()),
        }
    }
}

/// Each vertical direction is what its own keyword names.
pub proof fn lemma_vertical_round_trip(direction: VerticalDirection)
    ensures
        VerticalDirection::spec_from_ident(direction.css_text()) == Some(direction),
{
    reveal_strlit("top");
    reveal_strlit("bottom");
    let table = VERTICAL_DIRECTIONS@;
    assert(table[0].0@.len() != table[1].0@.len());
    lemma_keyword_found(table, direction.spec_index());
}

} // verus!
