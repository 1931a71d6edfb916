//! Decimal numerals: reading a [`CSSFloat`] from text and writing it back.

use crate::number::{abs, clamp_i64, saturate_i64, CSSFloat};
use vstd::prelude::*;

verus! {

/// Whether `c` is one of the ten decimal digits.
pub open spec fn is_digit(c: char) -> bool {
    '0' <= c && c <= '9'
}

/// The number that the decimal digit `c` stands for.
pub open spec fn digit_value(c: char) -> nat {
    (c as int - '0' as int) as nat
}

/// Whether every character of `s` is a decimal digit.
pub open spec fn all_digits(s: Seq<char>) -> bool {
    forall|i: int| 0 <= i < s.len() ==> is_digit(#[trigger] s[i])
}

/// The number written by the digits `s`, most significant first.
pub open spec fn digits_value(s: Seq<char>) -> nat
    decreases s.len(),
{
    if s.len() == 0 {
        0
    } else {
        digits_value(s.drop_last()) * 10 + digit_value(s.last())
    }
}

/// The digits `f` after a decimal point, counted in units of which the first
/// digit is worth `weight`, the next a tenth of that, and so on; digits worth
/// less than one unit are dropped.
pub open spec fn fraction_value(f: Seq<char>, weight: nat) -> nat
    decreases f.len(),
{
    if f.len() == 0 || weight == 0 {
        0
    } else {
        digit_value(f[0]) * weight + fraction_value(f.skip(1), weight / 10)
    }
}

/// The index of the first `.` in `s`, or the length of `s` if it has none.
pub open spec fn point(s: Seq<char>) -> int
    decreases s.len(),
{
    if s.len() == 0 || s[0] == '.' {
        0
    } else {
        1 + point(s.skip(1))
    }
}

/// The number that the decimal numeral `text` denotes, if it is one.
///
/// A numeral is an optional `-`, one or more digits, and optionally a `.`
/// followed by one or more digits. Fraction digits beyond the ninth are
/// dropped, and the result is saturated.
pub open spec fn spec_from_decimal(text: Seq<char>) -> Option<CSSFloat> {
    let negative = text.len() > 0 && text[0] == '-';
    let body = if negative {
        text.skip(1)
    } else {
        text
    };
    let whole = body.take(point(body));
    let has_point = point(body) < body.len();
    let fraction = if has_point {
        body.skip(point(body) + 1)
    } else {
        Seq::<char>::empty()
    };
    if whole.len() == 0 || !all_digits(whole) || (has_point && (fraction.len() == 0 || !all_digits(
        fraction,
    ))) {
        None
    } else {
        let magnitude = digits_value(whole) * 1_000_000_000 + fraction_value(fraction, 100_000_000);
        Some(
            CSSFloat {
                nanos: clamp_i64(
                    if negative {
                        -magnitude
                    } else {
                        magnitude as int
                    },
                ),
            },
        )
    }
}

/// The character that writes the digit `d`.
pub open spec fn digit_char(d: nat) -> char {
    ('0' as int + d) as char
}

/// The decimal digits of `n`, most significant first, without leading zeros.
pub open spec fn nat_text(n: nat) -> Seq<char>
    decreases n,
{
    if n < 10 {
        seq![digit_char(n)]
    } else {
        nat_text(n / 10).push(digit_char(n % 10))
    }
}

/// The digits after the decimal point of `units`, where a digit in the first
/// place is worth `weight` units, stopping after the last digit that is not
/// zero.
pub open spec fn fraction_text(units: nat, weight: nat) -> Seq<char>
    decreases weight,
{
    if units == 0 || weight == 0 {
        Seq::<char>::empty()
    } else {
        seq![digit_char(units / weight)] + fraction_text(units % weight, weight / 10)
    }
}

/// Whether `weight` is the worth of one of the nine places after the decimal
/// point, or zero, the worth of the places beyond them.
pub open spec fn is_place(weight: nat) -> bool {
    weight == 100_000_000 || weight == 10_000_000 || weight == 1_000_000 || weight == 100_000
        || weight == 10_000 || weight == 1_000 || weight == 100 || weight == 10 || weight == 1
        || weight == 0
}

/// `String::push` appends one character.
pub assume_specification[ String::push ](s: &mut String, ch: char)
    ensures
        final(s)@ == old(s)@.push(ch),
;

proof fn lemma_point(s: Seq<char>)
    ensures
        0 <= point(s) <= s.len(),
        forall|k: int| 0 <= k < point(s) ==> s[k] != '.',
        point(s) < s.len() ==> s[point(s)] == '.',
    decreases s.len(),
{
    if s.len() == 0 || s[0] == '.' {
    } else {
        lemma_point(s.skip(1));
        assert forall|k: int| 0 <= k < point(s) implies s[k] != '.' by {
            if k > 0 {
                assert(s[k] == s.skip(1)[k - 1]);
            }
        }
        if point(s) < s.len() {
            assert(s[point(s)] == s.skip(1)[point(s) - 1]);
        }
    }
}

proof fn lemma_point_is(s: Seq<char>, j: int)
    requires
        0 <= j <= s.len(),
        forall|k: int| 0 <= k < j ==> s[k] != '.',
        j < s.len() ==> s[j] == '.',
    ensures
        point(s) == j,
{
    lemma_point(s);
}

fn digit_of(c: char) -> (d: Option<u8>)
    ensures
        d is Some <==> is_digit(c),
        d matches Some(v) ==> v == digit_value(c) && v < 10,
{
    if '0' <= c && c <= '9' {
        Some(((c as u32) - ('0' as u32)) as u8)
    } else {
        None
    }
}

/// Reads the run of digits of `text` that starts at `from`.
///
/// Returns the index of the first character after the run, and the number
/// that the run denotes, limited to ten thousand million.
fn read_digits(text: &str, from: usize) -> (r: (usize, u64))
    requires
        from <= text@.len(),
    ensures
        from <= r.0 <= text@.len(),
        all_digits(text@.subrange(from as int, r.0 as int)),
        r.0 == text@.len() || !is_digit(text@[r.0 as int]),
        r.1 == if digits_value(text@.subrange(from as int, r.0 as int)) < 10_000_000_000 {
            digits_value(text@.subrange(from as int, r.0 as int))
        } else {
            10_000_000_000
        },
{
    let len = text.unicode_len();
    let mut i: usize = from;
    let mut value: u64 = 0;
    loop
        invariant
            len == text@.len(),
            from <= i <= len,
            all_digits(text@.subrange(from as int, i as int)),
            value == if digits_value(text@.subrange(from as int, i as int)) < 10_000_000_000 {
                digits_value(text@.subrange(from as int, i as int))
            } else {
                10_000_000_000
            },
        ensures
            i == len || !is_digit(text@[i as int]),
        decreases len - i,
    {
        if i >= len {
            break ;
        }
        let c = text.get_char(i);
        match digit_of(c) {
            None => {
                break ;
            },
            Some(d) => {
                proof {
                    let run = text@.subrange(from as int, i + 1);
                    assert(run.drop_last() =~= text@.subrange(from as int, i as int));
                    assert(run.last() == text@[i as int]);
                    assert forall|k: int| 0 <= k < run.len() implies is_digit(#[trigger] run[k]) by {
                        if k < i - from {
                            assert(run[k] == text@.subrange(from as int, i as int)[k]);
                        }
                    }
                }
                let next: u64 = value * 10 + d as u64;
                value = if next < 10_000_000_000 {
                    next
                } else {
                    10_000_000_000
                };
                i = i + 1;
            },
        }
    }
    (i, value)
}

/// Reads `text` from `from` to its end as the digits after a decimal point.
///
/// Returns their value in billionths, or `None` if one of them is no digit.
fn read_fraction(text: &str, from: usize) -> (r: Option<u64>)
    requires
        from <= text@.len(),
    ensures
        r is Some <==> all_digits(text@.skip(from as int)),
        r matches Some(v) ==> v == fraction_value(text@.skip(from as int), 100_000_000) && v
            < 1_000_000_000,
{
    let len = text.unicode_len();
    let ghost digits = text@.skip(from as int);
    let mut k: usize = from;
    let mut value: u64 = 0;
    let mut weight: u64 = 100_000_000;
    proof {
        assert(digits.skip(0) =~= digits);
    }
    while k < len
        invariant
            len == text@.len(),
            from <= k <= len,
            digits == text@.skip(from as int),
            all_digits(digits.take(k - from)),
            weight <= 100_000_000,
            value + weight * 10 <= 1_000_000_000,
            weight == 0 ==> value < 1_000_000_000,
            value + fraction_value(digits.skip(k - from), weight as nat) == fraction_value(
                digits,
                100_000_000,
            ),
        decreases len - k,
    {
        let c = text.get_char(k);
        proof {
            assert(digits[k - from] == text@[k as int]);
        }
        match digit_of(c) {
            None => {
                return None;
            },
            Some(d) => {
                proof {
                    assert forall|m: int| 0 <= m < k + 1 - from implies is_digit(
                        #[trigger] digits.take(k + 1 - from)[m],
                    ) by {
                        if m < k - from {
                            assert(digits.take(k - from)[m] == digits.take(k + 1 - from)[m]);
                        }
                    }
                    assert(digits.skip(k - from).skip(1) =~= digits.skip(k + 1 - from));
                    assert(digits.skip(k - from)[0] == digits[k - from]);
                    assert(d * weight <= 9 * weight) by (nonlinear_arith)
                        requires
                            d <= 9,
                    ;
                }
                value = value + (d as u64) * weight;
                weight = weight / 10;
                k = k + 1;
            },
        }
    }
    proof {
        assert(digits.take(len - from) =~= digits);
        assert(digits.skip(len - from).len() == 0);
    }
    Some(value)
}

impl CSSFloat {
    /// Reads a decimal numeral such as `-12.5`.
    pub fn from_decimal(text: &str) -> (r: Option<CSSFloat>)
        ensures
            r == spec_from_decimal(text@),
    {
        let len = text.unicode_len();
        let negative = len > 0 && text.get_char(0) == '-';
        let first: usize = if negative {
            1
        } else {
            0
        };
        let ghost body = text@.skip(first as int);
        let (end, whole) = read_digits(text, first);
        let ghost j = end - first;
        proof {
            assert(text@.skip(0) =~= text@);
            assert(body.take(j) =~= text@.subrange(first as int, end as int));
            if end < len {
                assert(body[j] == text@[end as int]);
            }
            lemma_point(body);
            assert forall|k: int| 0 <= k < j implies body[k] != '.' by {
                assert(body.take(j)[k] == body[k]);
            }
        }
        if end == first {
            proof {
                if point(body) > 0 {
                    assert(body.take(point(body))[0] == body[0]);
                }
            }
            return None;
        }
        let mut fraction: u64 = 0;
        if end < len {
            if text.get_char(end) != '.' {
                proof {
                    assert(point(body) > j);
                    assert(body.take(point(body))[j] == body[j]);
                }
                return None;
            }
            proof {
                lemma_point_is(body, j);
                assert(body.skip(j + 1) =~= text@.skip(end + 1));
            }
            if end + 1 == len {
                return None;
            }
            match read_fraction(text, end + 1) {
                None => {
                    return None;
                },
                Some(v) => {
                    fraction = v;
                },
            }
        } else {
            proof {
                lemma_point_is(body, j);
                assert(fraction_value(Seq::<char>::empty(), 100_000_000) == 0);
            }
        }
        if whole >= 9_223_372_037 {
            if negative {
                Some(CSSFloat { nanos: i64::MIN })
            } else {
                Some(CSSFloat { nanos: i64::MAX })
            }
        } else {
            let magnitude: i128 = (whole as i128) * 1_000_000_000 + (fraction as i128);
            if negative {
                Some(CSSFloat { nanos: saturate_i64(-magnitude) })
            } else {
                Some(CSSFloat { nanos: saturate_i64(magnitude) })
            }
        }
    }
}

fn char_of(d: u8) -> (c: char)
    requires
        d < 10,
    ensures
        c == digit_char(d as nat),
        is_digit(c),
{
    (48u8 + d) as char
}

/// Appends the decimal digits of `n` to `dest`.
pub fn write_nat(n: u64, dest: &mut String)
    ensures
        final(dest)@ == old(dest)@ + nat_text(n as nat),
    decreases n,
{
    if n >= 10 {
        write_nat(n / 10, dest);
    }
    dest.push(char_of((n % 10) as u8));
    proof {
        if n >= 10 {
            assert(final(dest)@ =~= old(dest)@ + nat_text(n as nat));
        } else {
            assert(final(dest)@ =~= old(dest)@ + nat_text(n as nat));
        }
    }
}

/// Appends the digits after the decimal point of `units` billionths.
fn write_fraction(units: u64, dest: &mut String)
    requires
        units < 1_000_000_000,
    ensures
        final(dest)@ == old(dest)@ + fraction_text(units as nat, 100_000_000),
{
    let mut rest: u64 = units;
    let mut weight: u64 = 100_000_000;
    while rest != 0 && weight != 0
        invariant
            rest < weight * 10 || rest == 0,
            is_place(weight as nat),
            dest@ + fraction_text(rest as nat, weight as nat) == old(dest)@ + fraction_text(
                units as nat,
                100_000_000,
            ),
        decreases weight,
    {
        let ghost before = dest@;
        let digit = rest / weight;
        assert(digit < 10) by (nonlinear_arith)
            requires
                digit == rest / weight,
                rest < weight * 10,
                weight > 0,
        ;
        dest.push(char_of(digit as u8));
        proof {
            assert(before + fraction_text(rest as nat, weight as nat) =~= dest@ + fraction_text(
                (rest % weight) as nat,
                (weight / 10) as nat,
            ));
        }
        rest = rest % weight;
        weight = weight / 10;
    }
    proof {
        assert(dest@ + fraction_text(rest as nat, weight as nat) =~= dest@);
    }
}

impl CSSFloat {
    /// The canonical decimal numeral of the number: a `-` if it is negative,
    /// the digits of its whole part, and, unless the fraction is zero, a `.`
    /// and the fraction's digits up to the last one that is not zero.
    pub open spec fn css_text(self) -> Seq<char> {
        let magnitude = abs(self.nanos as int) as nat;
        let sign = if self.nanos < 0 {
            seq!['-']
        } else {
            Seq::<char>::empty()
        };
        let fraction = if magnitude % 1_000_000_000 == 0 {
            Seq::<char>::empty()
        } else {
            seq!['.'] + fraction_text(magnitude % 1_000_000_000, 100_000_000)
        };
        sign + nat_text(magnitude / 1_000_000_000) + fraction
    }

    /// Appends the canonical decimal numeral of the number to `dest`.
    pub fn to_css(&self, dest: &mut String)
        ensures
            final(dest)@ == old(dest)@ + self.css_text(),
    {
        let magnitude: u64 = if self.nanos < 0 {
            (-(self.nanos as i128)) as u64
        } else {
            self.nanos as u64
        };
        if self.nanos < 0 {
            dest.push('-');
        }
        write_nat(magnitude / 1_000_000_000, dest);
        let fraction = magnitude % 1_000_000_000;
        if fraction != 0 {
            dest.push('.');
            write_fraction(fraction, dest);
        }
        proof {
            assert(dest@ =~= old(dest)@ + self.css_text());
        }
    }
}

proof fn lemma_nat_text(n: nat)
    ensures
        nat_text(n).len() > 0,
        all_digits(nat_text(n)),
        digits_value(nat_text(n)) == n,
    decreases n,
{
    let t = nat_text(n);
    if n < 10 {
        assert(t.drop_last().len() == 0);
        assert(digits_value(t.drop_last()) == 0);
        assert(t.last() == digit_char(n));
    } else {
        lemma_nat_text(n / 10);
        assert(t.drop_last() =~= nat_text(n / 10));
        assert(t.last() == digit_char(n % 10));
        assert forall|i: int| 0 <= i < t.len() implies is_digit(#[trigger] t[i]) by {
            if i < t.len() - 1 {
                assert(t[i] == nat_text(n / 10)[i]);
            }
        }
    }
}

proof fn lemma_fraction_text(units: nat, weight: nat)
    requires
        is_place(weight),
        units < 10 * weight || units == 0,
    ensures
        all_digits(fraction_text(units, weight)),
        fraction_value(fraction_text(units, weight), weight) == units,
        units > 0 ==> fraction_text(units, weight).len() > 0,
    decreases weight,
{
    let t = fraction_text(units, weight);
    if units == 0 || weight == 0 {
    } else {
        let d = units / weight;
        let rest = fraction_text(units % weight, weight / 10);
        lemma_fraction_text(units % weight, weight / 10);
        assert(d < 10) by (nonlinear_arith)
            requires
                d == units / weight,
                units < 10 * weight,
                weight > 0,
        ;
        assert(units == d * weight + units % weight) by (nonlinear_arith)
            requires
                d == units / weight,
                weight > 0,
        ;
        assert(t[0] == digit_char(d));
        assert(t.skip(1) =~= rest);
        assert forall|i: int| 0 <= i < t.len() implies is_digit(#[trigger] t[i]) by {
            if i > 0 {
                assert(t[i] == rest[i - 1]);
            }
        }
    }
}

/// Reading the canonical numeral of a number gives the number back.
pub proof fn lemma_decimal_round_trip(x: CSSFloat)
    ensures
        spec_from_decimal(x.css_text()) == Some(x),
{
    let magnitude = abs(x.nanos as int) as nat;
    let whole = nat_text(magnitude / 1_000_000_000);
    let units = magnitude % 1_000_000_000;
    let digits = fraction_text(units, 100_000_000);
    let text = x.css_text();
    lemma_nat_text(magnitude / 1_000_000_000);
    lemma_fraction_text(units, 100_000_000);
    let body = if x.nanos < 0 {
        text.skip(1)
    } else {
        text
    };
    let tail = if units == 0 {
        Seq::<char>::empty()
    } else {
        seq!['.'] + digits
    };
    if x.nanos < 0 {
        assert(text[0] == '-');
        assert(body =~= whole + tail);
    } else {
        assert(text =~= whole + tail);
        assert(text[0] == whole[0]);
        assert(is_digit(whole[0]));
    }
    assert forall|k: int| 0 <= k < whole.len() implies body[k] != '.' by {
        assert(body[k] == whole[k]);
        assert(is_digit(whole[k]));
    }
    lemma_point_is(body, whole.len() as int);
    assert(body.take(whole.len() as int) =~= whole);
    if units != 0 {
        assert(body.skip(whole.len() as int + 1) =~= digits);
    } else {
        assert(fraction_value(Seq::<char>::empty(), 100_000_000) == 0);
    }
}

} // verus!
