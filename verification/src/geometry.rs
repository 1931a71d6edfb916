//! Absolute lengths in application units.

use crate::number::{clamp_i32, mul_div, saturate_i32, trunc_div, CSSFloat};
use vstd::prelude::*;

verus! {

/// How many application units make one pixel.
pub const AU_PER_PX: i64 = 60;

/// A length in application units, sixtieths of a pixel.
#[derive(Clone, Copy, Debug, PartialEq, Eq, PartialOrd, Ord, Hash, Structural)]
pub struct Au(pub i32);

impl Au {
    /// The length `value * num / den` application units, rounded toward zero
    /// to a whole number of units and saturated.
    pub open spec fn spec_from_ratio(value: CSSFloat, num: int, den: int) -> Au {
        Au(clamp_i32(trunc_div(value.nanos * num, den * 1_000_000_000)))
    }

    /// Converts `value`, counted in a unit of which `den` make `num`
    /// application units, to application units.
    pub fn from_ratio(value: CSSFloat, num: i64, den: u32) -> (r: Au)
        requires
            den > 0,
        ensures
            r == Au::spec_from_ratio(value, num as int, den as int),
    {
        Au(saturate_i32(mul_div(value.nanos, num, (den as u64) * 1_000_000_000)))
    }

    /// The length multiplied by `factor` and divided by `divisor`, rounded
    /// once, toward zero, to a whole number of units and saturated.
    pub open spec fn spec_scale_by_part(self, factor: CSSFloat, divisor: int) -> Au {
        Au(clamp_i32(trunc_div(self.0 * factor.nanos, divisor * 1_000_000_000)))
    }

    /// The length multiplied by `factor`, rounded toward zero to a whole
    /// number of units and saturated.
    pub open spec fn spec_scale_by(self, factor: CSSFloat) -> Au {
        self.spec_scale_by_part(factor, 1)
    }

    /// Multiplies the length by `factor` and divides it by `divisor`.
    pub fn scale_by_part(self, factor: CSSFloat, divisor: u32) -> (r: Au)
        requires
            divisor > 0,
        ensures
            r == self.spec_scale_by_part(factor, divisor as int),
    {
        Au(saturate_i32(mul_div(self.0 as i64, factor.nanos, (divisor as u64) * 1_000_000_000)))
    }

    /// Multiplies the length by `factor`.
    pub fn scale_by(self, factor: CSSFloat) -> (r: Au)
        ensures
            r == self.spec_scale_by(factor),
    {
        self.scale_by_part(factor, 1)
    }

    /// The sum of two lengths, saturated.
    pub open spec fn spec_plus(self, other: Au) -> Au {
        Au(clamp_i32(self.0 + other.0))
    }

    /// Adds two lengths.
    pub fn plus(self, other: Au) -> (r: Au)
        ensures
            r == self.spec_plus(other),
    {
        Au(saturate_i32((self.0 as i128) + (other.0 as i128)))
    }

    /// The length in pixels: a sixtieth of the count of units, rounded away
    /// from zero to a whole number of thousandths.
    pub open spec fn spec_to_subpx(self) -> CSSFloat {
        if self.0 >= 0 {
            CSSFloat { nanos: ((self.0 * 50 + 2) / 3 * 1_000_000) as i64 }
        } else {
            CSSFloat { nanos: (-((-self.0 * 50 + 2) / 3 * 1_000_000)) as i64 }
        }
    }

    /// Converts the length to pixels.
    pub fn to_subpx(self) -> (r: CSSFloat)
        ensures
            r == self.spec_to_subpx(),
    {
        if self.0 >= 0 {
            CSSFloat { nanos: ((self.0 as i64) * 50 + 2) / 3 * 1_000_000 }
        } else {
            let thousandths: i64 = ((-(self.0 as i64)) * 50 + 2) / 3;
            CSSFloat { nanos: -(thousandths * 1_000_000) }
        }
    }
}

/// Converting a length to pixels and the pixels back to a length gives the
/// length itself: the first rounds away from zero, the second toward it.
pub proof fn lemma_px_round_trip(length: Au)
    ensures
        Au::spec_from_ratio(length.spec_to_subpx(), 60, 1) == length,
{
}

/// A conversion rounds toward zero: unless it saturates, the length that
/// comes out is the whole number of units next to the exact value on the
/// side of zero. It never exceeds the exact value in magnitude, and falls
/// short of it by less than one unit.
pub proof fn lemma_conversion_truncates(value: CSSFloat, num: int, den: int)
    requires
        den > 0,
    ensures
        ({
            let units = trunc_div(value.nanos * num, den * 1_000_000_000);
            let exact = value.nanos * num;
            let one = den * 1_000_000_000;
            &&& Au::spec_from_ratio(value, num, den).0 == clamp_i32(units)
            &&& exact >= 0 ==> units * one <= exact < (units + 1) * one
            &&& exact <= 0 ==> (units - 1) * one < exact <= units * one
        }),
{
    let exact = value.nanos * num;
    let one = den * 1_000_000_000;
    if exact >= 0 {
        vstd::arithmetic::div_mod::lemma_fundamental_div_mod(exact, one);
        vstd::arithmetic::div_mod::lemma_mod_bound(exact, one);
        assert(one * (exact / one) == (exact / one) * one) by (nonlinear_arith);
        assert((exact / one + 1) * one == (exact / one) * one + one) by (nonlinear_arith);
        assert((exact / one - 1) * one == (exact / one) * one - one) by (nonlinear_arith);
    } else {
        vstd::arithmetic::div_mod::lemma_fundamental_div_mod(-exact, one);
        vstd::arithmetic::div_mod::lemma_mod_bound(-exact, one);
        let q = (-exact) / one;
        assert(one * q == q * one) by (nonlinear_arith);
        assert((-q) * one == -(q * one)) by (nonlinear_arith);
        assert((-q - 1) * one == -(q * one) - one) by (nonlinear_arith);
    }
}

} // verus!
