//! Fixed-point arithmetic.
//!
//! Every fraction, angle, brightness and phase in this crate is an `i64` that
//! counts millionths: `UNIT` stands for 1.0. Sums and products saturate at the
//! ends of `i64`, quotients round towards negative infinity, so every
//! operation is total and its result is fixed by its arguments alone.

use vstd::arithmetic::div_mod::{
    lemma_fundamental_div_mod, lemma_fundamental_div_mod_converse, lemma_mod_pos_bound,
};
use vstd::prelude::*;

verus! {

/// 1.0 in fixed point.
pub const UNIT: i64 = 1_000_000;

/// 0.5 in fixed point.
pub const HALF: i64 = 500_000;

/// `x` brought into the range of `i64`.
pub open spec fn sat(x: int) -> int {
    if x < i64::MIN as int {
        i64::MIN as int
    } else if x > i64::MAX as int {
        i64::MAX as int
    } else {
        x
    }
}

/// `x` brought into `[lo, hi]`; `lo` where the interval is empty.
pub open spec fn clamp_spec(x: i64, lo: i64, hi: i64) -> i64 {
    if x < lo {
        lo
    } else if x > hi {
        hi
    } else {
        x
    }
}

#[verifier::when_used_as_spec(clamp_spec)]
pub fn clamp(x: i64, lo: i64, hi: i64) -> (r: i64)
    ensures
        r == clamp_spec(x, lo, hi),
{
    if x < lo {
        lo
    } else if x > hi {
        hi
    } else {
        x
    }
}

/// Saturating conversion from the wide intermediate type.
pub fn narrow(x: i128) -> (r: i64)
    ensures
        r == sat(x as int),
{
    if x < i64::MIN as i128 {
        i64::MIN
    } else if x > i64::MAX as i128 {
        i64::MAX
    } else {
        x as i64
    }
}

/// Quotient rounded towards negative infinity.
pub fn div_floor(a: i128, d: i128) -> (r: i128)
    requires
        d > 0,
    ensures
        r == (a as int) / (d as int),
{
    if a >= 0 {
        a / d
    } else {
        let y: i128 = -(a + 1);
        let q: i128 = y / d;
        proof {
            let rem = (y as int) % (d as int);
            lemma_fundamental_div_mod(y as int, d as int);
            lemma_mod_pos_bound(y as int, d as int);
            assert(a as int == (-(q as int) - 1) * (d as int) + ((d as int) - 1 - rem))
                by (nonlinear_arith)
                requires
                    a as int == -((y as int) + 1),
                    y as int == (d as int) * (q as int) + rem,
            ;
            lemma_fundamental_div_mod_converse(
                a as int,
                d as int,
                -(q as int) - 1,
                (d as int) - 1 - rem,
            );
        }
        -q - 1
    }
}

/// Remainder of the quotient rounded towards negative infinity: never negative.
pub fn rem_floor(a: i128, d: i128) -> (r: i128)
    requires
        d > 0,
    ensures
        r == (a as int) % (d as int),
        0 <= r < d,
{
    if a >= 0 {
        proof {
            lemma_mod_pos_bound(a as int, d as int);
        }
        a % d
    } else {
        let y: i128 = -(a + 1);
        let m: i128 = y % d;
        proof {
            let q = (y as int) / (d as int);
            lemma_fundamental_div_mod(y as int, d as int);
            lemma_mod_pos_bound(y as int, d as int);
            assert(a as int == (-q - 1) * (d as int) + ((d as int) - 1 - (m as int)))
                by (nonlinear_arith)
                requires
                    a as int == -((y as int) + 1),
                    y as int == (d as int) * q + (m as int),
            ;
            lemma_fundamental_div_mod_converse(
                a as int,
                d as int,
                -q - 1,
                (d as int) - 1 - (m as int),
            );
        }
        d - 1 - m
    }
}

/// The product of two `i64` fits the wide intermediate type with room to spare.
pub proof fn lemma_product_fits(a: i64, b: i64)
    ensures
        -0x4000_0000_0000_0000_0000_0000_0000_0000 <= (a as int) * (b as int)
            <= 0x4000_0000_0000_0000_0000_0000_0000_0000,
{
    assert(-0x4000_0000_0000_0000_0000_0000_0000_0000 <= (a as int) * (b as int)
        <= 0x4000_0000_0000_0000_0000_0000_0000_0000) by (nonlinear_arith)
        requires
            -0x8000_0000_0000_0000 <= (a as int) < 0x8000_0000_0000_0000,
            -0x8000_0000_0000_0000 <= (b as int) < 0x8000_0000_0000_0000,
    ;
}

pub open spec fn plus_spec(a: i64, b: i64) -> i64 {
    sat(a + b) as i64
}

/// Saturating sum.
#[verifier::when_used_as_spec(plus_spec)]
pub fn plus(a: i64, b: i64) -> (r: i64)
    ensures
        r == plus_spec(a, b),
{
    narrow(a as i128 + b as i128)
}

pub open spec fn minus_spec(a: i64, b: i64) -> i64 {
    sat(a - b) as i64
}

/// Saturating difference.
#[verifier::when_used_as_spec(minus_spec)]
pub fn minus(a: i64, b: i64) -> (r: i64)
    ensures
        r == minus_spec(a, b),
{
    narrow(a as i128 - b as i128)
}

pub open spec fn times_spec(a: i64, b: i64) -> i64 {
    sat((a * b) / (UNIT as int)) as i64
}

/// Fixed-point product `a * b`, rounded down, saturating.
#[verifier::when_used_as_spec(times_spec)]
pub fn times(a: i64, b: i64) -> (r: i64)
    ensures
        r == times_spec(a, b),
{
    proof {
        lemma_product_fits(a, b);
    }
    let p: i128 = (a as i128) * (b as i128);
    narrow(div_floor(p, UNIT as i128))
}

pub open spec fn over_spec(a: i64, b: i64) -> i64 {
    sat((a * UNIT) / (b as int)) as i64
}

/// Fixed-point quotient `a / b` for a positive divisor, rounded down, saturating.
#[verifier::when_used_as_spec(over_spec)]
pub fn over(a: i64, b: i64) -> (r: i64)
    requires
        b > 0,
    ensures
        r == over_spec(a, b),
{
    proof {
        lemma_product_fits(a, UNIT);
    }
    let p: i128 = (a as i128) * (UNIT as i128);
    narrow(div_floor(p, b as i128))
}

pub open spec fn fmod_spec(x: i64, m: i64) -> i64 {
    ((x as int) % (m as int)) as i64
}

/// `x` folded into `[0, m)`, for negative `x` too.
#[verifier::when_used_as_spec(fmod_spec)]
pub fn fmod(x: i64, m: i64) -> (r: i64)
    requires
        m > 0,
    ensures
        r == fmod_spec(x, m),
        0 <= r < m,
{
    rem_floor(x as i128, m as i128) as i64
}

} // verus!
