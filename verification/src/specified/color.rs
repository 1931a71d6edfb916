//! Colors, with the text they were written as.

use crate::tokens::{Color, Parser, Token, RGBA};
use vstd::prelude::*;
use vstd::string::StringExecFns;

verus! {

/// A color, and the identifier it was written as if it was written as one.
///
/// Two colors are equal if their values are, whatever they were written as.
#[derive(Clone, Debug, Eq)]
pub struct CSSColor {
    /// The value of the color.
    pub parsed: Color,
    /// The identifier that stood for the color in the style sheet.
    pub authored: Option<String>,
}

/// A color in red, green, blue and alpha, and the identifier it was written
/// as if it was written as one.
///
/// Two colors are equal if their values are, whatever they were written as.
#[derive(Clone, Debug, Eq)]
pub struct CSSRGBA {
    /// The value of the color.
    pub parsed: RGBA,
    /// The identifier that stood for the color in the style sheet.
    pub authored: Option<String>,
}

impl PartialEq for CSSColor {
    fn eq(&self, other: &Self) -> (r: bool) {
        self.parsed == other.parsed
    }
}

impl vstd::std_specs::cmp::PartialEqSpecImpl for CSSColor {
    open spec fn obeys_eq_spec() -> bool {
        true
    }

    open spec fn eq_spec(&self, other: &Self) -> bool {
        self.parsed == other.parsed
    }
}

impl PartialEq for CSSRGBA {
    fn eq(&self, other: &Self) -> (r: bool) {
        self.parsed == other.parsed
    }
}

impl vstd::std_specs::cmp::PartialEqSpecImpl for CSSRGBA {
    open spec fn obeys_eq_spec() -> bool {
        true
    }

    open spec fn eq_spec(&self, other: &Self) -> bool {
        self.parsed == other.parsed
    }
}

impl CSSColor {
    /// What `parse` does: the color that stands next, with the next token's
    /// name as its authored text if that token is an identifier, and the
    /// cursor after the color; an error, and the cursor as it is, where no
    /// color stands next.
    pub open spec fn spec_parse(p: Parser) -> (Result<CSSColor, ()>, Parser) {
        let authored = match p.spec_next() {
            (Ok(Token::Ident(name)), _) => Some(name),
            _ => None,
        };
        match p.spec_next_color() {
            (Some(parsed), rest) => (Ok(CSSColor { parsed, authored }), rest),
            (None, rest) => (Err(()), rest),
        }
    }

    /// Reads a color.
    pub fn parse(input: &mut Parser) -> (r: Result<CSSColor, ()>)
        ensures
            (r, *final(input)) == CSSColor::spec_parse(*old(input)),
    {
        let start = input.position();
        let authored = match input.next() {
            Ok(Token::Ident(name)) => Some(name),
            _ => None,
        };
        input.reset(start);
        match input.next_color() {
            Some(parsed) => Ok(CSSColor { parsed, authored }),
            None => Err(()),
        }
    }

    /// The CSS text of the color: the authored text where there is one, else
    /// the canonical text of the value.
    pub open spec fn css_text(self) -> Seq<char> {
        match self.authored {
            Some(text) => text@,
            None => self.parsed.css_text(),
        }
    }

    /// Appends the CSS text of the color to `dest`.
    pub fn to_css(&self, dest: &mut String)
        ensures
            final(dest)@ == old(dest)@ + self.css_text(),
    {
        match &self.authored {
            Some(text) => dest.append(text.as_str()),
            None => self.parsed.to_css(dest),
        }
    }
}

impl CSSRGBA {
    /// The CSS text of the color: the authored text where there is one, else
    /// the canonical text of the value.
    pub open spec fn css_text(self) -> Seq<char> {
        match self.authored {
            Some(text) => text@,
            None => Color::RGBA(self.parsed).css_text(),
        }
    }

    /// Appends the CSS text of the color to `dest`.
    pub fn to_css(&self, dest: &mut String)
        ensures
            final(dest)@ == old(dest)@ + self.css_text(),
    {
        match &self.authored {
            Some(text) => dest.append(text.as_str()),
            None => Color::RGBA(self.parsed).to_css(dest),
        }
    }
}

/// A color written as an identifier is written back as that identifier.
pub proof fn lemma_authored_color_fidelity(p: Parser, name: String)
    requires
        p.spec_next().0 == Ok::<Token, ()>(Token::Ident(name)),
        CSSColor::spec_parse(p).0 is Ok,
    ensures
        CSSColor::spec_parse(p).0->Ok_0.css_text() == name@,
{
}

} // verus!
