//! Single-precision numbers as bit patterns, computed with integers only.
//!
//! A pattern with a clear sign bit, exponent field `e` between 1 and 254 and fraction
//! field `f` stands for the number `(2^23 + f) * 2^(e - 150)`.

use vstd::prelude::*;
use vstd::arithmetic::div_mod::{lemma_div_denominator, lemma_fundamental_div_mod};
use vstd::arithmetic::power2::{lemma2_to64, lemma_pow2_pos, lemma_pow2_unfold, pow2};

verus! {

/// Pattern of the single-precision number nearest to 0.005.
pub const FIVE_THOUSANDTHS: u32 = 0x3BA3_D70A;

/// Significand of that number, leading one included: the number is this many times `2^-31`.
pub const FIVE_THOUSANDTHS_SIGNIFICAND: u32 = 0xA3_D70A;

/// Exponent field of a pattern whose sign bit is clear.
pub open spec fn exponent_field(bits: u32) -> nat {
    (bits / 0x80_0000) as nat
}

/// Significand of a normal number, leading one included.
pub open spec fn significand(bits: u32) -> nat {
    (0x80_0000 + bits % 0x80_0000) as nat
}

/// How many binary digits a number has beyond twenty-four.
pub open spec fn excess_digits(n: nat) -> nat
    decreases n,
{
    if n < 0x100_0000 {
        0
    } else {
        1 + excess_digits(n / 2)
    }
}

/// `n / unit` rounded to the nearest integer, a half going to the even neighbour.
pub open spec fn nearest_even(n: nat, unit: nat) -> nat {
    let below = n / unit;
    let rest = n % unit;
    if 2 * rest < unit || (2 * rest == unit && below % 2 == 0) {
        below
    } else {
        below + 1
    }
}

/// Pattern of the single-precision number nearest to `n * 2^-31`, for `n` from `2^23`
/// up to, not including, `2^32`.
///
/// The significand is `n` rounded to twenty-four digits; a significand that rounds up to
/// `2^24` carries into the exponent field, which is what the sum below does.
pub open spec fn pattern_of_scaled(n: nat) -> nat {
    let digits = excess_digits(n);
    (118 + digits) * 0x80_0000 + nearest_even(n, pow2(digits))
}

/// Pattern of the single-precision product of `raw` and the single-precision 0.005.
pub open spec fn five_thousandths_of(raw: u8) -> u32 {
    if raw == 0 {
        0
    } else {
        pattern_of_scaled((raw * FIVE_THOUSANDTHS_SIGNIFICAND) as nat) as u32
    }
}

/// `2^31` times the number that a pattern stands for, for a pattern with a clear sign bit
/// and an exponent field of at least 119.
pub open spec fn scaled_value(bits: u32) -> nat {
    significand(bits) * pow2((exponent_field(bits) - 119) as nat)
}

/// Multiplies `raw` by 0.005 as single-precision arithmetic does, and returns the
/// product's pattern.
pub fn scale_by_five_thousandths(raw: u8) -> (bits: u32)
    ensures
        bits == five_thousandths_of(raw),
{
    if raw == 0 {
        return 0;
    }
    let exact: u32 = (raw as u32) * FIVE_THOUSANDTHS_SIGNIFICAND;
    let mut kept: u32 = exact;
    let mut unit: u32 = 1;
    let mut digits: u32 = 0;
    proof {
        lemma2_to64();
    }
    while kept >= 0x100_0000
        invariant
            0 < unit <= 256,
            digits <= 8,
            unit == pow2(digits as nat),
            kept == exact / unit,
            excess_digits(exact as nat) == digits + excess_digits(kept as nat),
        decreases kept,
    {
        proof {
            lemma_div_denominator(exact as int, unit as int, 2);
            lemma_pow2_unfold((digits + 1) as nat);
            assert(unit < 256) by {
                lemma_fundamental_div_mod(exact as int, unit as int);
                assert(unit * kept <= exact) by (nonlinear_arith)
                    requires
                        exact == unit * (exact / unit) + exact % unit,
                        0 <= exact % unit,
                        kept == exact / unit,
                ;
                assert(unit * 0x100_0000 <= unit * kept) by (nonlinear_arith)
                    requires
                        kept >= 0x100_0000,
                        unit > 0,
                ;
            }
            assert(digits < 8 && unit <= 128) by {
                lemma2_to64();
                assert(digits == 0 || digits == 1 || digits == 2 || digits == 3 || digits == 4
                    || digits == 5 || digits == 6 || digits == 7 || digits == 8);
            }
        }
        kept = kept / 2;
        unit = unit * 2;
        digits = digits + 1;
    }
    let rest: u32 = exact % unit;
    let significand: u32 = if 2 * rest < unit || (2 * rest == unit && kept % 2 == 0) {
        kept
    } else {
        kept + 1
    };
    (118 + digits) * 0x80_0000 + significand
}

/// Rounding leaves the nearest multiple of the unit: the result is off by at most half
/// a unit, and where it is off by exactly half the rounded quotient is even.
pub proof fn lemma_nearest_even_is_nearest(n: nat, unit: nat)
    requires
        unit > 0,
    ensures
        -unit <= 2 * (nearest_even(n, unit) * unit - n) <= unit,
        2 * (nearest_even(n, unit) * unit - n) == unit || 2 * (nearest_even(n, unit) * unit - n)
            == -unit ==> nearest_even(n, unit) % 2 == 0,
{
    let below = n / unit;
    let rest = n % unit;
    lemma_fundamental_div_mod(n as int, unit as int);
    assert((below + 1) * unit == below * unit + unit) by (nonlinear_arith);
    assert(unit * below == below * unit) by (nonlinear_arith);
}

/// Dropping the excess digits of a number of at least twenty-four digits leaves exactly
/// twenty-four; a number below `2^32` has at most eight in excess.
pub proof fn lemma_excess_digits(n: nat)
    requires
        n >= 0x80_0000,
    ensures
        0x80_0000 <= n / pow2(excess_digits(n)) < 0x100_0000,
        n < 0x1_0000_0000 ==> excess_digits(n) <= 8,
    decreases n,
{
    lemma2_to64();
    if n >= 0x100_0000 {
        let half = n / 2;
        let fewer = excess_digits(half);
        lemma_excess_digits(half);
        lemma_pow2_pos(fewer);
        lemma_pow2_unfold(fewer + 1);
        lemma_div_denominator(n as int, 2, pow2(fewer) as int);
        if n < 0x1_0000_0000 && fewer == 8 {
            // nine digits in excess would take a number of at least thirty-three
            assert((n / 2) / 256 < 0x80_0000);
        }
    } else {
        assert(n / 1 == n);
    }
}

/// The pattern stands for the rounded number: its exponent field counts the excess
/// digits, and its value is the rounded significand times the unit it was rounded to.
pub proof fn lemma_pattern_stands_for_rounding(n: nat)
    requires
        0x80_0000 <= n < 0x1_0000_0000,
    ensures
        pattern_of_scaled(n) < 0x8000_0000,
        119 <= exponent_field(pattern_of_scaled(n) as u32) <= 128,
        scaled_value(pattern_of_scaled(n) as u32) == nearest_even(n, pow2(excess_digits(n)))
            * pow2(excess_digits(n)),
{
    let digits = excess_digits(n);
    let unit = pow2(digits);
    let rounded = nearest_even(n, unit);
    lemma_excess_digits(n);
    lemma2_to64();
    lemma_pow2_unfold(digits + 1);
    assert(0x80_0000 <= rounded <= 0x100_0000);
    let bits = pattern_of_scaled(n) as u32;
    if rounded < 0x100_0000 {
        assert(bits == (119 + digits) * 0x80_0000 + (rounded - 0x80_0000));
        assert(exponent_field(bits) == 119 + digits);
        assert(significand(bits) == rounded);
    } else {
        assert(bits == (120 + digits) * 0x80_0000);
        assert(exponent_field(bits) == 120 + digits);
        assert(significand(bits) == 0x80_0000);
        assert(0x80_0000 * (2 * unit) == 0x100_0000 * unit) by (nonlinear_arith);
    }
}

/// The single-precision product is a positive normal number below two that differs
/// from `raw * 0.005` by less than one ten-millionth. (The number times `2^31` is
/// compared with `raw * 0.005 * 2^31`, both taken a thousandfold to stay with integers.)
pub proof fn lemma_five_thousandths_is_close(raw: u8)
    requires
        raw > 0,
    ensures
        119 <= exponent_field(five_thousandths_of(raw)) <= 127,
        -0x8000_0000 < 10_000 * (1000 * scaled_value(five_thousandths_of(raw)) - 5 * raw
            * 0x8000_0000) < 0x8000_0000,
{
    let exact = (raw * FIVE_THOUSANDTHS_SIGNIFICAND) as nat;
    let digits = excess_digits(exact);
    let unit = pow2(digits);
    let rounded = nearest_even(exact, unit);
    let bits = five_thousandths_of(raw);
    lemma2_to64();
    lemma_excess_digits(exact);
    lemma_pattern_stands_for_rounding(exact);
    lemma_nearest_even_is_nearest(exact, unit);
    assert(unit <= 256) by {
        assert(digits == 0 || digits == 1 || digits == 2 || digits == 3 || digits == 4 || digits
            == 5 || digits == 6 || digits == 7 || digits == 8);
    }
    let value = scaled_value(bits);
    assert(value == rounded * unit);
    assert(1000 * exact == 5 * raw * 0x8000_0000 - 240 * raw);
    assert(exponent_field(bits) <= 127) by {
        // 255 * 0.005 is below two, so nothing rounds up to the next power of two
        if exponent_field(bits) == 128 {
            assert(digits == 8 && rounded == 0x100_0000);
            assert(rounded * unit == 0x1_0000_0000) by (nonlinear_arith)
                requires
                    rounded == 0x100_0000,
                    unit == 256,
            ;
        }
    }
}

} // verus!
