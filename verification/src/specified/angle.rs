//! Angles.

use crate::keywords::{ascii_lower, keyword, lemma_keyword_found, spec_keyword};
use crate::number::CSSFloat;
use crate::tokens::{Parser, Token};
use vstd::prelude::*;
use vstd::string::StringExecFns;

verus! {

/// A quarter of a turn in radians, half of pi, in billionths.
pub const QUARTER_TURN_NANOS: i64 = 1_570_796_327;

/// Half a turn in radians, pi, in billionths.
pub const PI_NANOS: i64 = QUARTER_TURN_NANOS * 2;

/// A unit of angle.
#[derive(Clone, Copy, Debug, PartialEq, Eq, Structural)]
pub enum AngleUnit {
    /// Degrees, 360 to the turn.
    Deg,
    /// Gradians, 400 to the turn.
    Grad,
    /// Turns.
    Turn,
    /// Radians.
    Rad,
}

/// The keywords of [`AngleUnit`].
pub const ANGLE_UNITS: [(&'static str, AngleUnit); 4] = [
    ("deg", AngleUnit::Deg),
    ("grad", AngleUnit::Grad),
    ("turn", AngleUnit::Turn),
    ("rad", AngleUnit::Rad),
];

/// An angle, in radians whatever unit it was written in.
#[derive(Clone, Copy, Debug, PartialEq, Eq, PartialOrd, Ord, Structural)]
pub struct Angle(pub CSSFloat);

impl Angle {
    /// The angle of `quarters` quarter turns.
    pub open spec fn spec_quarter_turns(quarters: int) -> Angle {
        Angle(CSSFloat { nanos: (quarters * QUARTER_TURN_NANOS) as i64 })
    }

    /// Makes the angle of `quarters` quarter turns.
    pub fn quarter_turns(quarters: u8) -> (r: Angle)
        ensures
            r == Angle::spec_quarter_turns(quarters as int),
    {
        Angle(CSSFloat { nanos: (quarters as i64) * QUARTER_TURN_NANOS })
    }

    /// The angle of `value` in the unit `unit`: degrees times pi over 180,
    /// gradians times pi over 200, turns times twice pi, and radians as they
    /// are; each product rounded toward zero to a whole number of billionths
    /// and saturated.
    pub open spec fn spec_from_unit(value: CSSFloat, unit: AngleUnit) -> Angle {
        match unit {
            AngleUnit::Deg => Angle(value.scaled(PI_NANOS as int, 180_000_000_000)),
            AngleUnit::Grad => Angle(value.scaled(PI_NANOS as int, 200_000_000_000)),
            AngleUnit::Turn => Angle(value.scaled(2 * PI_NANOS, 1_000_000_000)),
            AngleUnit::Rad => Angle(value),
        }
    }

    /// Makes the angle of `value` in the unit `unit`.
    pub fn from_unit(value: CSSFloat, unit: AngleUnit) -> (r: Angle)
        ensures
            r == Angle::spec_from_unit(value, unit),
    {
        match unit {
            AngleUnit::Deg => Angle(value.scale(PI_NANOS, 180_000_000_000)),
            AngleUnit::Grad => Angle(value.scale(PI_NANOS, 200_000_000_000)),
            AngleUnit::Turn => Angle(value.scale(2 * PI_NANOS, 1_000_000_000)),
            AngleUnit::Rad => Angle(value),
        }
    }

    /// The angle that `token` writes: a number with a unit of angle, or the
    /// number zero.
    pub open spec fn spec_from_token(token: Token) -> Result<Angle, ()> {
        match token {
            Token::Dimension(value, unit) => match spec_keyword(ANGLE_UNITS@, unit@) {
                Some(known) => Ok(Angle::spec_from_unit(value, known)),
                None => Err(()),
            },
            Token::Number(value) => if value.is_zero() {
                Ok(Angle(CSSFloat { nanos: 0 }))
            } else {
                Err(())
            },
            _ => Err(()),
        }
    }

    /// Makes an angle of one token.
    pub fn from_token(token: &Token) -> (r: Result<Angle, ()>)
        ensures
            r == Angle::spec_from_token(*token),
    {
        match token {
            Token::Dimension(value, unit) => match keyword(&ANGLE_UNITS, unit.as_str()) {
                Some(known) => Ok(Angle::from_unit(*value, known)),
                None => Err(()),
            },
            Token::Number(value) => if value.is_zero() {
                Ok(Angle(CSSFloat { nanos: 0 }))
            } else {
                Err(())
            },
            _ => Err(()),
        }
    }

    /// What `parse` does: the angle that the next token writes, and the
    /// cursor after the token.
    pub open spec fn spec_parse(p: Parser) -> (Result<Angle, ()>, Parser) {
        match p.spec_next() {
            (Ok(token), rest) => (Angle::spec_from_token(token), rest),
            (Err(_), rest) => (Err(()), rest),
        }
    }

    /// Reads an angle.
    pub fn parse(input: &mut Parser) -> (r: Result<Angle, ()>)
        ensures
            (r, *final(input)) == Angle::spec_parse(*old(input)),
    {
        match input.next() {
            Ok(token) => Angle::from_token(&token),
            Err(()) => Err(()),
        }
    }

    /// The angle in radians.
    pub fn radians(self) -> (r: CSSFloat)
        ensures
            r == self.0,
    {
        self.0
    }

    /// The canonical CSS text of the angle: its radians and the unit `rad`.
    pub open spec fn css_text(self) -> Seq<char> {
        self.0.css_text() + ANGLE_UNITS@[3].0@
    }

    /// Appends the canonical CSS text of the angle to `dest`.
    pub fn to_css(&self, dest: &mut String)
        ensures
            final(dest)@ == old(dest)@ + self.css_text(),
    {
        self.0.to_css(dest);
        dest.append(ANGLE_UNITS[3].0);
        proof {
            assert(final(dest)@ =~= old(dest)@ + self.css_text());
        }
    }
}

/// Reading the radians that an angle is written as gives the angle back.
pub proof fn lemma_angle_round_trip(angle: Angle, unit: String)
    requires
        unit@ == ANGLE_UNITS@[3].0@,
    ensures
        Angle::spec_from_token(Token::Dimension(angle.0, unit)) == Ok::<Angle, ()>(angle),
{
    reveal_strlit("deg");
    reveal_strlit("grad");
    reveal_strlit("turn");
    reveal_strlit("rad");
    assert(ascii_lower(unit@[0]) == 'r');
    lemma_keyword_found(ANGLE_UNITS@, 3);
}

} // verus!
