//! Periodic waveforms and easing curves.
//!
//! Every function here is pure and total: a phase of any size is folded into
//! its period first, and an easing argument is clamped to `[0, UNIT]`.

use crate::num::{
    clamp, clamp_spec, div_floor, fmod, fmod_spec, lemma_product_fits, minus, minus_spec, over,
    over_spec, plus, plus_spec, rem_floor, times, times_spec, HALF, UNIT,
};
use vstd::arithmetic::div_mod::{
    lemma_fundamental_div_mod, lemma_mod_bound, lemma_mod_multiples_vanish, lemma_mod_pos_bound,
    lemma_small_mod,
};
use vstd::prelude::*;

verus! {

/// Largest period that `ramp_wide` takes: 2^100.
pub const WIDE_LIMIT: i128 = 0x10_0000_0000_0000_0000_0000_0000;

/// An interval of values, walked from `lo` to `hi`; `hi` may lie below `lo`.
#[derive(Clone, Copy, Debug, PartialEq, Eq, Structural)]
pub struct Range {
    pub lo: i64,
    pub hi: i64,
}

/// A non-negative numerator below `d * c` gives a quotient below `c`.
pub proof fn lemma_fraction_below(m: int, d: int, c: int)
    requires
        d > 0,
        0 <= m,
    ensures
        0 <= m / d,
        m < d * c <==> m / d < c,
{
    lemma_fundamental_div_mod(m, d);
    lemma_mod_pos_bound(m, d);
    let q = m / d;
    let r = m % d;
    assert(0 <= q) by (nonlinear_arith)
        requires
            m == d * q + r,
            0 <= r < d,
            0 <= m,
            d > 0,
    ;
    assert(m < d * c <==> q < c) by (nonlinear_arith)
        requires
            m == d * q + r,
            0 <= r < d,
            d > 0,
    ;
}

/// Where `x` stands in its period `pd`, as a fraction: `(x mod pd) / pd`.
pub open spec fn ramp_wide_spec(x: int, pd: int) -> int {
    ((x % pd) * UNIT) / pd
}

/// The fraction of a period is at least 0 and below 1.
pub proof fn lemma_ramp_range(x: int, pd: int)
    requires
        pd > 0,
    ensures
        0 <= ramp_wide_spec(x, pd) < UNIT,
{
    lemma_mod_bound(x, pd);
    let m = x % pd;
    assert(0 <= m * UNIT && m * UNIT < pd * UNIT) by (nonlinear_arith)
        requires
            0 <= m < pd,
    ;
    lemma_fraction_below(m * UNIT, pd, UNIT as int);
}

/// `ramp` on the wide intermediate type, for phases that are products.
pub fn ramp_wide(x: i128, pd: i128) -> (r: i64)
    requires
        0 < pd <= WIDE_LIMIT,
    ensures
        r == ramp_wide_spec(x as int, pd as int),
        0 <= r < UNIT,
{
    let m = rem_floor(x, pd);
    proof {
        lemma_ramp_range(x as int, pd as int);
        assert(0 <= (m as int) * UNIT && (m as int) * UNIT <= WIDE_LIMIT * UNIT)
            by (nonlinear_arith)
            requires
                0 <= m < pd,
                pd <= WIDE_LIMIT,
        ;
    }
    let q = div_floor(m * (UNIT as i128), pd);
    q as i64
}

pub open spec fn ramp_spec(x: i64, pd: i64) -> i64 {
    ramp_wide_spec(x as int, pd as int) as i64
}

/// Linear rise from 0 towards 1 over each period `pd`.
#[verifier::when_used_as_spec(ramp_spec)]
pub fn ramp(x: i64, pd: i64) -> (r: i64)
    requires
        pd > 0,
    ensures
        r == ramp_spec(x, pd),
        0 <= r < UNIT,
{
    ramp_wide(x as i128, pd as i128)
}

pub open spec fn triangle_spec(x: i64, pd: i64) -> i64 {
    let r = ramp_spec(x, pd);
    if r < HALF {
        (2 * r) as i64
    } else {
        (2 * (UNIT - r)) as i64
    }
}

/// Rises from 0 to 1 over the first half of each period and falls back over the second.
#[verifier::when_used_as_spec(triangle_spec)]
pub fn triangle(x: i64, pd: i64) -> (r: i64)
    requires
        pd > 0,
    ensures
        r == triangle_spec(x, pd),
        0 <= r <= UNIT,
{
    let r = ramp(x, pd);
    if r < HALF {
        2 * r
    } else {
        2 * (UNIT - r)
    }
}

pub open spec fn boolean_square_spec(x: i64, pd: i64, duty: i64) -> bool {
    ramp_spec(x, pd) < duty
}

/// Whether `x` stands in the first `duty` part of its period.
#[verifier::when_used_as_spec(boolean_square_spec)]
pub fn boolean_square(x: i64, pd: i64, duty: i64) -> (r: bool)
    requires
        pd > 0,
    ensures
        r == boolean_square_spec(x, pd, duty),
{
    ramp(x, pd) < duty
}

pub open spec fn square_spec(x: i64, pd: i64, duty: i64) -> i64 {
    if boolean_square_spec(x, pd, duty) {
        UNIT
    } else {
        0
    }
}

/// 1 during the first `duty` part of each period, 0 for the rest of it.
#[verifier::when_used_as_spec(square_spec)]
pub fn square(x: i64, pd: i64, duty: i64) -> (r: i64)
    requires
        pd > 0,
    ensures
        r == square_spec(x, pd, duty),
{
    if boolean_square(x, pd, duty) {
        UNIT
    } else {
        0
    }
}

pub open spec fn negsquare_spec(x: i64, pd: i64, duty: i64) -> i64 {
    if boolean_square_spec(x, pd, duty) {
        UNIT
    } else {
        (-UNIT) as i64
    }
}

/// 1 during the first `duty` part of each period, -1 for the rest of it.
#[verifier::when_used_as_spec(negsquare_spec)]
pub fn negsquare(x: i64, pd: i64, duty: i64) -> (r: i64)
    requires
        pd > 0,
    ensures
        r == negsquare_spec(x, pd, duty),
{
    if boolean_square(x, pd, duty) {
        UNIT
    } else {
        -UNIT
    }
}

pub open spec fn phase_shift_spec(x: i64, pd: i64, offset: i64) -> i64 {
    ((x + (offset * pd) / (UNIT as int)) % (pd as int)) as i64
}

/// `x` moved on by the fraction `offset` of the period `pd`, folded into `[0, pd)`.
#[verifier::when_used_as_spec(phase_shift_spec)]
pub fn phase_shift(x: i64, pd: i64, offset: i64) -> (r: i64)
    requires
        pd > 0,
    ensures
        r == phase_shift_spec(x, pd, offset),
        0 <= r < pd,
{
    proof {
        lemma_product_fits(offset, pd);
    }
    let step = div_floor((offset as i128) * (pd as i128), UNIT as i128);
    rem_floor(x as i128 + step, pd as i128) as i64
}

pub open spec fn invert_spec(x: i64) -> i64 {
    minus_spec(UNIT, x)
}

/// `1 - x`.
#[verifier::when_used_as_spec(invert_spec)]
pub fn invert(x: i64) -> (r: i64)
    ensures
        r == invert_spec(x),
{
    minus(UNIT, x)
}

pub open spec fn lerp_spec(x: i64, range: Range) -> i64 {
    plus_spec(range.lo, times_spec(x, minus_spec(range.hi, range.lo)))
}

/// The point the fraction `x` of the way from `range.lo` to `range.hi`.
#[verifier::when_used_as_spec(lerp_spec)]
pub fn lerp(x: i64, range: Range) -> (r: i64)
    ensures
        r == lerp_spec(x, range),
{
    plus(range.lo, times(x, minus(range.hi, range.lo)))
}

/// The product of two fractions in `[0, 1]` is a fraction in `[0, 1]`.
pub proof fn lemma_times_unit_range(a: i64, b: i64)
    requires
        0 <= a <= UNIT,
        0 <= b <= UNIT,
    ensures
        0 <= times_spec(a, b) <= UNIT,
        times_spec(a, b) == (a * b) / (UNIT as int),
{
    assert(0 <= a * b && a * b <= UNIT * UNIT) by (nonlinear_arith)
        requires
            0 <= a <= UNIT,
            0 <= b <= UNIT,
    ;
}

pub open spec fn ease_in_quad_spec(x: i64) -> i64 {
    let c = clamp_spec(x, 0, UNIT);
    times_spec(c, c)
}

/// Quadratic ease-in, `x^2`, of `x` clamped to `[0, 1]`.
#[verifier::when_used_as_spec(ease_in_quad_spec)]
pub fn ease_in_quad(x: i64) -> (r: i64)
    ensures
        r == ease_in_quad_spec(x),
        0 <= r <= UNIT,
{
    let c = clamp(x, 0, UNIT);
    proof {
        lemma_times_unit_range(c, c);
    }
    times(c, c)
}

pub open spec fn ease_out_quad_spec(x: i64) -> i64 {
    let d = (UNIT - clamp_spec(x, 0, UNIT)) as i64;
    (UNIT - times_spec(d, d)) as i64
}

/// Quadratic ease-out, `1 - (1 - x)^2`, of `x` clamped to `[0, 1]`.
#[verifier::when_used_as_spec(ease_out_quad_spec)]
pub fn ease_out_quad(x: i64) -> (r: i64)
    ensures
        r == ease_out_quad_spec(x),
        0 <= r <= UNIT,
{
    let d = UNIT - clamp(x, 0, UNIT);
    proof {
        lemma_times_unit_range(d, d);
    }
    UNIT - times(d, d)
}

pub open spec fn ease_out_cubic_spec(x: i64) -> i64 {
    let d = (UNIT - clamp_spec(x, 0, UNIT)) as i64;
    (UNIT - times_spec(times_spec(d, d), d)) as i64
}

/// Cubic ease-out, `1 - (1 - x)^3`, of `x` clamped to `[0, 1]`.
#[verifier::when_used_as_spec(ease_out_cubic_spec)]
pub fn ease_out_cubic(x: i64) -> (r: i64)
    ensures
        r == ease_out_cubic_spec(x),
        0 <= r <= UNIT,
{
    let d = UNIT - clamp(x, 0, UNIT);
    proof {
        lemma_times_unit_range(d, d);
        lemma_times_unit_range(times_spec(d, d), d);
    }
    UNIT - times(times(d, d), d)
}

pub open spec fn ease_in_out_quad_spec(x: i64) -> i64 {
    let c = clamp_spec(x, 0, UNIT);
    if c < HALF {
        (2 * times_spec(c, c)) as i64
    } else {
        let d = (UNIT - c) as i64;
        (UNIT - 2 * times_spec(d, d)) as i64
    }
}

/// Quadratic ease-in-out of `x` clamped to `[0, 1]`: `2x^2` up to one half,
/// `1 - 2(1 - x)^2` from there.
#[verifier::when_used_as_spec(ease_in_out_quad_spec)]
pub fn ease_in_out_quad(x: i64) -> (r: i64)
    ensures
        r == ease_in_out_quad_spec(x),
        0 <= r <= UNIT,
{
    let c = clamp(x, 0, UNIT);
    if c < HALF {
        proof {
            lemma_times_unit_range(c, c);
            assert(c * c <= HALF * HALF) by (nonlinear_arith)
                requires
                    0 <= c <= HALF,
            ;
        }
        2 * times(c, c)
    } else {
        let d = UNIT - c;
        proof {
            lemma_times_unit_range(d, d);
            assert(d * d <= HALF * HALF) by (nonlinear_arith)
                requires
                    0 <= d <= HALF,
            ;
        }
        UNIT - 2 * times(d, d)
    }
}

pub open spec fn trapezoid_spec(x: i64, pd: i64, edge: i64) -> i64 {
    let m = fmod_spec(x, pd);
    if edge <= 0 {
        UNIT
    } else if m < edge {
        over_spec(m, edge)
    } else if pd - m < edge {
        over_spec((pd - m) as i64, edge)
    } else {
        UNIT
    }
}

/// A trapezoid over each period `pd`: a linear rise from 0 to 1 over the
/// first `edge` of the period, 1 in between, and a linear fall over the last
/// `edge`. With no edge it is 1 throughout.
#[verifier::when_used_as_spec(trapezoid_spec)]
pub fn trapezoid(x: i64, pd: i64, edge: i64) -> (r: i64)
    requires
        pd > 0,
    ensures
        r == trapezoid_spec(x, pd, edge),
        0 <= r <= UNIT,
{
    let m = fmod(x, pd);
    if edge <= 0 {
        UNIT
    } else if m < edge {
        proof {
            lemma_unit_fraction(m, edge);
        }
        over(m, edge)
    } else if pd - m < edge {
        proof {
            lemma_unit_fraction((pd - m) as i64, edge);
        }
        over(pd - m, edge)
    } else {
        UNIT
    }
}

/// A part of a positive whole, over the whole, is a fraction in `[0, 1]`.
pub proof fn lemma_unit_fraction(m: i64, d: i64)
    requires
        0 <= m <= d,
        d > 0,
    ensures
        0 <= over_spec(m, d) <= UNIT,
        over_spec(m, d) == (m * UNIT) / (d as int),
        m == d ==> over_spec(m, d) == UNIT,
        m < d ==> over_spec(m, d) < UNIT,
{
    assert(0 <= m * UNIT) by (nonlinear_arith)
        requires
            0 <= m,
    ;
    lemma_fraction_below(m * UNIT, d as int, UNIT + 1);
    lemma_fraction_below(m * UNIT, d as int, UNIT as int);
    assert(m * UNIT < d * (UNIT + 1)) by (nonlinear_arith)
        requires
            0 <= m <= d,
            d > 0,
    ;
    assert(m < d <==> m * UNIT < d * UNIT) by (nonlinear_arith);
}

/// A half wave of the sine, by Bhaskara's rational formula: for `y` in
/// `[0, 1]`, clamped to it, `16 y (1 - y) / (5 - 4 y (1 - y))`, which is
/// within two thousandths of `sin(pi * y)`.
pub open spec fn half_sine_spec(y: i64) -> i64 {
    let c = clamp_spec(y, 0, UNIT);
    let q = times_spec(c, (UNIT - c) as i64);
    ((16 * q * UNIT) / (5 * UNIT - 4 * q)) as i64
}

#[verifier::when_used_as_spec(half_sine_spec)]
pub fn half_sine(y: i64) -> (r: i64)
    ensures
        r == half_sine_spec(y),
        0 <= r <= UNIT,
{
    let c = clamp(y, 0, UNIT);
    proof {
        lemma_times_unit_range(c, (UNIT - c) as i64);
        assert(4 * (c * (UNIT - c)) <= UNIT * UNIT) by (nonlinear_arith)
            requires
                0 <= c <= UNIT,
        ;
    }
    let q = times(c, UNIT - c);
    proof {
        lemma_fraction_below(16 * q * UNIT, 5 * UNIT - 4 * q, UNIT + 1);
    }
    (16 * q * UNIT) / (5 * UNIT - 4 * q)
}

pub open spec fn signed_sine_spec(x: i64, pd: i64) -> i64 {
    let r = ramp_spec(x, pd);
    if r < HALF {
        half_sine_spec((2 * r) as i64)
    } else {
        (-half_sine_spec((2 * r - UNIT) as i64)) as i64
    }
}

/// A sine wave between -1 and 1 over each period `pd`, starting at 0 and
/// rising: two half waves of `half_sine`, the second turned over.
#[verifier::when_used_as_spec(signed_sine_spec)]
pub fn signed_sine(x: i64, pd: i64) -> (r: i64)
    requires
        pd > 0,
    ensures
        r == signed_sine_spec(x, pd),
        -UNIT <= r <= UNIT,
{
    let r = ramp(x, pd);
    if r < HALF {
        half_sine(2 * r)
    } else {
        -half_sine(2 * r - UNIT)
    }
}

pub open spec fn unit_sine_spec(x: i64, pd: i64) -> i64 {
    ((UNIT + signed_sine_spec(x, pd)) / 2) as i64
}

/// A sine wave between 0 and 1 over each period `pd`, starting at one half
/// and rising: `(1 + signed_sine) / 2`.
#[verifier::when_used_as_spec(unit_sine_spec)]
pub fn unit_sine(x: i64, pd: i64) -> (r: i64)
    requires
        pd > 0,
    ensures
        r == unit_sine_spec(x, pd),
        0 <= r <= UNIT,
{
    (UNIT + signed_sine(x, pd)) / 2
}

pub open spec fn ease_in_sine_spec(x: i64) -> i64 {
    (UNIT - half_sine_spec(((UNIT - clamp_spec(x, 0, UNIT)) / 2) as i64)) as i64
}

/// Sine ease-in of `x` clamped to `[0, 1]`: one less the cosine of a quarter
/// turn times `x`, the cosine taken from `half_sine`.
#[verifier::when_used_as_spec(ease_in_sine_spec)]
pub fn ease_in_sine(x: i64) -> (r: i64)
    ensures
        r == ease_in_sine_spec(x),
        0 <= r <= UNIT,
{
    UNIT - half_sine((UNIT - clamp(x, 0, UNIT)) / 2)
}

/// Two to the power `k`, for `k` from 0 to 10; 1024 beyond.
pub open spec fn octave_spec(k: i64) -> i64 {
    if k <= 0 {
        1
    } else if k == 1 {
        2
    } else if k == 2 {
        4
    } else if k == 3 {
        8
    } else if k == 4 {
        16
    } else if k == 5 {
        32
    } else if k == 6 {
        64
    } else if k == 7 {
        128
    } else if k == 8 {
        256
    } else if k == 9 {
        512
    } else {
        1024
    }
}

#[verifier::when_used_as_spec(octave_spec)]
pub fn octave(k: i64) -> (r: i64)
    ensures
        r == octave_spec(k),
        1 <= r <= 1024,
        k <= 9 ==> r <= 512,
{
    if k <= 0 {
        1
    } else if k == 1 {
        2
    } else if k == 2 {
        4
    } else if k == 3 {
        8
    } else if k == 4 {
        16
    } else if k == 5 {
        32
    } else if k == 6 {
        64
    } else if k == 7 {
        128
    } else if k == 8 {
        256
    } else if k == 9 {
        512
    } else {
        1024
    }
}

/// Exponential ease-in of `x` clamped to `[0, 1]`: 0 at 0, and from there
/// `2^(10x - 10)`, exact where `10x` is whole and linear in between.
pub open spec fn ease_in_exp_spec(x: i64) -> i64 {
    let c = clamp_spec(x, 0, UNIT);
    if c == 0 {
        0
    } else {
        let k = (10 * c) / (UNIT as int);
        let f = (10 * c) % (UNIT as int);
        (((UNIT + f) * octave_spec(k as i64)) / 1024) as i64
    }
}

#[verifier::when_used_as_spec(ease_in_exp_spec)]
pub fn ease_in_exp(x: i64) -> (r: i64)
    ensures
        r == ease_in_exp_spec(x),
        0 <= r <= UNIT,
{
    let c = clamp(x, 0, UNIT);
    if c == 0 {
        0
    } else {
        let k = (10 * c) / UNIT;
        let f = (10 * c) % UNIT;
        let o = octave(k);
        assert(0 <= (UNIT + f) * o <= 1024 * UNIT) by (nonlinear_arith)
            requires
                0 <= f < UNIT,
                1 <= o <= 1024,
                o > 512 ==> f == 0,
        ;
        ((UNIT + f) * o) / 1024
    }
}

pub open spec fn ease_out_exp_spec(x: i64) -> i64 {
    (UNIT - ease_in_exp_spec((UNIT - clamp_spec(x, 0, UNIT)) as i64)) as i64
}

/// Exponential ease-out of `x` clamped to `[0, 1]`: `1 - ease_in_exp(1 - x)`.
#[verifier::when_used_as_spec(ease_out_exp_spec)]
pub fn ease_out_exp(x: i64) -> (r: i64)
    ensures
        r == ease_out_exp_spec(x),
        0 <= r <= UNIT,
{
    UNIT - ease_in_exp(UNIT - clamp(x, 0, UNIT))
}

pub open spec fn ease_in_out_exp_spec(x: i64) -> i64 {
    let c = clamp_spec(x, 0, UNIT);
    if c < HALF {
        (ease_in_exp_spec((2 * c) as i64) / 2) as i64
    } else {
        (UNIT - ease_in_exp_spec((2 * UNIT - 2 * c) as i64) / 2) as i64
    }
}

/// Exponential ease-in-out of `x` clamped to `[0, 1]`: `ease_in_exp(2x) / 2`
/// up to one half, `1 - ease_in_exp(2 - 2x) / 2` from there.
#[verifier::when_used_as_spec(ease_in_out_exp_spec)]
pub fn ease_in_out_exp(x: i64) -> (r: i64)
    ensures
        r == ease_in_out_exp_spec(x),
        0 <= r <= UNIT,
{
    let c = clamp(x, 0, UNIT);
    if c < HALF {
        ease_in_exp(2 * c) / 2
    } else {
        UNIT - ease_in_exp(2 * UNIT - 2 * c) / 2
    }
}

pub open spec fn byte_spec(x: i64) -> u8 {
    ((clamp_spec(x, 0, UNIT) * 255 + HALF) / (UNIT as int)) as u8
}

/// The fraction `x`, clamped to `[0, 1]`, as a channel value: `x * 255`, rounded.
#[verifier::when_used_as_spec(byte_spec)]
pub fn byte(x: i64) -> (r: u8)
    ensures
        r == byte_spec(x),
{
    let c = clamp(x, 0, UNIT);
    ((c * 255 + HALF) / UNIT) as u8
}

/// A square wave repeats with its period: moving the phase by whole periods
/// changes nothing. The same holds of every waveform built on `ramp`.
pub proof fn lemma_ramp_periodic(x: i64, pd: i64, k: int)
    requires
        pd > 0,
        i64::MIN <= x + k * pd <= i64::MAX,
    ensures
        ramp_spec((x + k * pd) as i64, pd) == ramp_spec(x, pd),
        triangle_spec((x + k * pd) as i64, pd) == triangle_spec(x, pd),
        forall|duty: i64|
            square_spec((x + k * pd) as i64, pd, duty) == #[trigger] square_spec(x, pd, duty),
{
    lemma_mod_multiples_vanish(k, x as int, pd as int);
    assert(pd * k + x == x + k * pd) by (nonlinear_arith);
}

/// With a duty of one half, a square wave over one period is 1 on the first
/// half of the period and 0 on the second.
pub proof fn lemma_square_half(x: i64, pd: i64)
    requires
        pd > 0,
        0 <= x < pd,
    ensures
        square_spec(x, pd, HALF) == if 2 * x < pd {
            UNIT
        } else {
            0
        },
{
    let m = (x as int) % (pd as int);
    lemma_small_mod(x as nat, pd as nat);
    assert(0 <= m * UNIT) by (nonlinear_arith)
        requires
            0 <= m,
    ;
    lemma_fraction_below(m * UNIT, pd as int, HALF as int);
    assert(m * UNIT < pd * HALF <==> 2 * m < pd) by (nonlinear_arith);
    lemma_ramp_range(x as int, pd as int);
}

/// With a duty of one half, a square wave is 1 on the first half of every
/// period and 0 on the second: for `x` within a period and any number `k`
/// of periods on top.
pub proof fn lemma_square_half_everywhere(x: i64, pd: i64, k: int)
    requires
        pd > 0,
        0 <= x < pd,
        i64::MIN <= x + k * pd <= i64::MAX,
    ensures
        square_spec((x + k * pd) as i64, pd, HALF) == if 2 * x < pd {
            UNIT
        } else {
            0
        },
{
    lemma_ramp_periodic(x, pd, k);
    lemma_square_half(x, pd);
}

/// A product of fractions grows with its factors.
pub proof fn lemma_times_monotonic(a: i64, b: i64, c: i64, d: i64)
    requires
        0 <= a <= c <= UNIT,
        0 <= b <= d <= UNIT,
    ensures
        times_spec(a, b) <= times_spec(c, d),
{
    lemma_times_unit_range(a, b);
    lemma_times_unit_range(c, d);
    assert(a * b <= c * d) by (nonlinear_arith)
        requires
            0 <= a <= c,
            0 <= b <= d,
    ;
    vstd::arithmetic::div_mod::lemma_div_is_ordered(a * b, c * d, UNIT as int);
}

/// The quadratic and cubic eases never fall: a larger argument gives a
/// result that is at least as large.
pub proof fn lemma_eases_monotonic(x: i64, y: i64)
    requires
        x <= y,
    ensures
        ease_in_quad_spec(x) <= ease_in_quad_spec(y),
        ease_out_quad_spec(x) <= ease_out_quad_spec(y),
        ease_out_cubic_spec(x) <= ease_out_cubic_spec(y),
        ease_in_out_quad_spec(x) <= ease_in_out_quad_spec(y),
{
    let c = clamp_spec(x, 0, UNIT);
    let d = clamp_spec(y, 0, UNIT);
    let rc = (UNIT - c) as i64;
    let rd = (UNIT - d) as i64;
    lemma_times_monotonic(c, c, d, d);
    lemma_times_monotonic(rd, rd, rc, rc);
    lemma_times_unit_range(rc, rc);
    lemma_times_unit_range(rd, rd);
    lemma_times_monotonic(times_spec(rd, rd), rd, times_spec(rc, rc), rc);
    lemma_times_unit_range(c, c);
    lemma_times_unit_range(d, d);
    if c < HALF && d >= HALF {
        assert(c * c <= HALF * HALF) by (nonlinear_arith)
            requires
                0 <= c <= HALF,
        ;
        assert(rd * rd <= HALF * HALF) by (nonlinear_arith)
            requires
                0 <= rd <= HALF,
        ;
    }
}

} // verus!
