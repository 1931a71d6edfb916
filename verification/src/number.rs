//! Exact CSS numbers.
//!
//! A [`CSSFloat`] is a decimal fixed-point number: a signed count of
//! billionths. Arithmetic on it rounds toward zero and saturates at the ends
//! of the representable range.

use vstd::prelude::*;

verus! {

/// How many units of a [`CSSFloat`] make one.
pub const NANOS_PER_UNIT: i64 = 1_000_000_000;

/// A CSS number, as a signed count of billionths.
#[derive(Clone, Copy, Debug, PartialEq, Eq, PartialOrd, Ord, Hash, Structural)]
pub struct CSSFloat {
    /// The number multiplied by 1 000 000 000.
    pub nanos: i64,
}

/// The quotient `n / d` rounded toward zero, for a positive `d`.
pub open spec fn trunc_div(n: int, d: int) -> int {
    if n >= 0 {
        n / d
    } else {
        -((-n) / d)
    }
}

/// `v` limited to the range of `i64`.
pub open spec fn clamp_i64(v: int) -> i64 {
    if v < i64::MIN {
        i64::MIN
    } else if v > i64::MAX {
        i64::MAX
    } else {
        v as i64
    }
}

/// `v` limited to the range of `i32`.
pub open spec fn clamp_i32(v: int) -> i32 {
    if v < i32::MIN {
        i32::MIN
    } else if v > i32::MAX {
        i32::MAX
    } else {
        v as i32
    }
}

/// The absolute value of `a`.
pub open spec fn abs(a: int) -> int {
    if a < 0 {
        -a
    } else {
        a
    }
}

fn magnitude(a: i64) -> (m: u128)
    ensures
        m == abs(a as int),
{
    if a < 0 {
        (-(a as i128)) as u128
    } else {
        a as u128
    }
}

/// Computes `a * b / d`, rounded toward zero, without overflow.
pub fn mul_div(a: i64, b: i64, d: u64) -> (q: i128)
    requires
        d > 0,
    ensures
        q == trunc_div(a * b, d as int),
{
    let ma = magnitude(a);
    let mb = magnitude(b);
    assert(ma * mb <= 0x8000_0000_0000_0000 * 0x8000_0000_0000_0000) by (nonlinear_arith)
        requires
            ma <= 0x8000_0000_0000_0000,
            mb <= 0x8000_0000_0000_0000,
    ;
    let product = ma * mb;
    let quotient = product / (d as u128);
    assert(abs(a * b) == ma * mb) by (nonlinear_arith)
        requires
            ma == abs(a as int),
            mb == abs(b as int),
    ;
    assert((a * b < 0) ==> ((a < 0) != (b < 0))) by (nonlinear_arith);
    assert(((a < 0) != (b < 0)) ==> a * b <= 0) by (nonlinear_arith);
    if (a < 0) != (b < 0) {
        -(quotient as i128)
    } else {
        quotient as i128
    }
}

/// Limits `v` to the range of `i64`.
pub fn saturate_i64(v: i128) -> (r: i64)
    ensures
        r == clamp_i64(v as int),
{
    if v < i64::MIN as i128 {
        i64::MIN
    } else if v > i64::MAX as i128 {
        i64::MAX
    } else {
        v as i64
    }
}

/// Limits `v` to the range of `i32`.
pub fn saturate_i32(v: i128) -> (r: i32)
    ensures
        r == clamp_i32(v as int),
{
    if v < i32::MIN as i128 {
        i32::MIN
    } else if v > i32::MAX as i128 {
        i32::MAX
    } else {
        v as i32
    }
}

impl CSSFloat {
    /// The number `self * num / den`, rounded toward zero to a whole count of
    /// billionths and saturated.
    pub open spec fn scaled(self, num: int, den: int) -> CSSFloat {
        CSSFloat { nanos: clamp_i64(trunc_div(self.nanos * num, den)) }
    }

    /// Multiplies by the ratio `num / den`.
    pub fn scale(self, num: i64, den: u64) -> (r: CSSFloat)
        requires
            den > 0,
        ensures
            r == self.scaled(num as int, den as int),
    {
        CSSFloat { nanos: saturate_i64(mul_div(self.nanos, num, den)) }
    }

    /// Whether the number is below zero.
    pub open spec fn spec_is_negative(self) -> bool {
        self.nanos < 0
    }

    /// Whether the number is below zero.
    #[verifier::when_used_as_spec(spec_is_negative)]
    pub fn is_negative(self) -> (r: bool)
        ensures
            r == self.spec_is_negative(),
    {
        self.nanos < 0
    }

    /// Whether the number is zero.
    pub open spec fn spec_is_zero(self) -> bool {
        self.nanos == 0
    }

    /// Whether the number is zero.
    #[verifier::when_used_as_spec(spec_is_zero)]
    pub fn is_zero(self) -> (r: bool)
        ensures
            r == self.spec_is_zero(),
    {
        self.nanos == 0
    }
}

} // verus!
