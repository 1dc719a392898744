//! Fixed-point trigonometry over angles in millidegrees.
//!
//! Sine and cosine use a rational approximation that is exact at 0, 30, 90,
//! 150 and 180 degrees and stays within a couple of thousandths elsewhere;
//! the arctangent uses a quadratic approximation good to about a quarter of
//! a degree. Each executable function returns exactly the value of its spec
//! mirror, so callers' contracts can pin results down to the integer.

use vstd::prelude::*;
use vstd::arithmetic::div_mod::{
    lemma_div_is_ordered, lemma_div_multiples_vanish, lemma_div_pos_is_pos,
};
use crate::math::{rem_euclid64, SCALAR_MAX};

verus! {

/// Half a turn, in millidegrees.
pub const HALF_TURN: i64 = 180_000;

/// A full turn, in millidegrees.
pub const TURN: i64 = 360_000;

/// A quarter turn, in millidegrees.
pub const QUARTER_TURN: i64 = 90_000;

/// Scale of sine and cosine results: `sin(90 deg)` is exactly `UNIT`.
pub const UNIT: i64 = 1024;

/// Largest angle the trig entry points accept, comfortably clear of the
/// wrap-around helpers' own bounds.
pub const ANGLE_MAX: i64 = 0x1000_0000_0000_0000;

/// Wrap an angle into `(-180_000, 180_000]`.
pub open spec fn wrap_spec(a: int) -> int {
    let r = a % 360_000;
    if r > 180_000 {
        r - 360_000
    } else {
        r
    }
}

/// Sine on `[0, 180_000]`, scaled by `UNIT`.
pub open spec fn sin_half_spec(x: int) -> int {
    let p = x * (180_000 - x);
    (4 * p * 1024) / (40_500_000_000 - p)
}

/// Sine of any angle, scaled by `UNIT`.
pub open spec fn sin_spec(a: int) -> int {
    let w = wrap_spec(a);
    if w >= 0 {
        sin_half_spec(w)
    } else {
        -sin_half_spec(-w)
    }
}

/// Cosine of any angle, scaled by `UNIT`.
pub open spec fn cos_spec(a: int) -> int {
    sin_spec(90_000 - wrap_spec(a))
}

/// Arctangent of `z / 32_768` for `z` in `[0, 32_768]`, in millidegrees.
pub open spec fn atan_unit_spec(z: int) -> int {
    (45_000 * z * 32_768 + 15_640 * z * (32_768 - z)) / 0x4000_0000
}

/// Arctangent of the ratio `num / den` of two non-negative values, in
/// millidegrees; a zero denominator reads as a vertical slope.
pub open spec fn atan_ratio_spec(num: int, den: int) -> int {
    if den == 0 {
        90_000
    } else if num <= den {
        atan_unit_spec(num * 32_768 / den)
    } else {
        90_000 - atan_unit_spec(den * 32_768 / num)
    }
}

/// Four-quadrant arctangent of `y / x`, in millidegrees in
/// `[-180_000, 180_000]`.
pub open spec fn atan2_spec(y: int, x: int) -> int {
    let base = atan_ratio_spec(crate::math::abs_i(y), crate::math::abs_i(x));
    if x > 0 {
        if y >= 0 {
            base
        } else {
            -base
        }
    } else if x < 0 {
        if y >= 0 {
            180_000 - base
        } else {
            -(180_000 - base)
        }
    } else {
        if y > 0 {
            90_000
        } else if y < 0 {
            -90_000
        } else {
            0
        }
    }
}

/// Wrap an angle into `(-180_000, 180_000]`.
pub fn wrap_milli(a: i64) -> (r: i64)
    requires
        -ANGLE_MAX <= a <= ANGLE_MAX,
    ensures
        r == wrap_spec(a as int),
        -180_000 < r <= 180_000,
{
    let m = rem_euclid64(a, 360_000);
    if m > 180_000 {
        m - 360_000
    } else {
        m
    }
}

/// Sine on `[0, 180_000]`, scaled by `UNIT`.
fn sin_half(x: i64) -> (r: i64)
    requires
        0 <= x <= 180_000,
    ensures
        r == sin_half_spec(x as int),
        0 <= r <= UNIT,
{
    let ux = x as u64;
    proof {
        assert(ux * (180_000 - ux) <= 8_100_000_000u64) by (nonlinear_arith)
            requires
                0 <= ux <= 180_000u64,
        ;
    }
    let p: u64 = ux * (180_000 - ux);
    let num: u64 = 4 * p * 1024;
    let den: u64 = 40_500_000_000 - p;
    let q: u64 = num / den;
    proof {
        lemma_div_pos_is_pos(num as int, den as int);
        assert(num <= 1024 * den) by (nonlinear_arith)
            requires
                num == 4 * p * 1024,
                den == 40_500_000_000 - p,
                p <= 8_100_000_000u64,
        ;
        lemma_div_is_ordered(num as int, 1024 * den as int, den as int);
        lemma_div_multiples_vanish(1024, den as int);
    }
    q as i64
}

/// Sine of any angle, scaled by `UNIT`.
pub fn sin_milli(a: i64) -> (r: i64)
    requires
        -ANGLE_MAX <= a <= ANGLE_MAX,
    ensures
        r == sin_spec(a as int),
        -UNIT <= r <= UNIT,
{
    let w = wrap_milli(a);
    if w >= 0 {
        sin_half(w)
    } else {
        -sin_half(-w)
    }
}

/// Cosine of any angle, scaled by `UNIT`.
pub fn cos_milli(a: i64) -> (r: i64)
    requires
        -ANGLE_MAX <= a <= ANGLE_MAX,
    ensures
        r == cos_spec(a as int),
        -UNIT <= r <= UNIT,
{
    let w = wrap_milli(a);
    sin_milli(90_000 - w)
}

/// Arctangent of `z / 32_768` for `z` in `[0, 32_768]`, in millidegrees.
fn atan_unit(z: i64) -> (r: i64)
    requires
        0 <= z <= 32_768,
    ensures
        r == atan_unit_spec(z as int),
        0 <= r <= 45_000,
{
    let uz = z as u64;
    proof {
        assert(45_000 * uz * 32_768 + 15_640 * uz * (32_768 - uz)
            <= 45_000u64 * 0x4000_0000) by (nonlinear_arith)
            requires
                0 <= uz <= 32_768u64,
        ;
    }
    let num: u64 = 45_000 * uz * 32_768 + 15_640 * uz * (32_768 - uz);
    let q: u64 = num / 0x4000_0000;
    proof {
        lemma_div_pos_is_pos(num as int, 0x4000_0000);
        lemma_div_is_ordered(num as int, 45_000int * 0x4000_0000int, 0x4000_0000int);
        lemma_div_multiples_vanish(45_000int, 0x4000_0000int);
    }
    q as i64
}

/// Largest numerator or denominator `atan_ratio_milli` accepts.
pub const RATIO_MAX: i64 = 0x100_0000_0000;

/// Arctangent of `num / den` for non-negative values, in millidegrees in
/// `[0, 90_000]`; a zero denominator reads as a vertical slope.
pub fn atan_ratio_milli(num: i64, den: i64) -> (r: i64)
    requires
        0 <= num <= RATIO_MAX,
        0 <= den <= RATIO_MAX,
    ensures
        r == atan_ratio_spec(num as int, den as int),
        0 <= r <= 90_000,
{
    if den == 0 {
        90_000
    } else if num <= den {
        let z: u64 = (num as u64) * 32_768 / (den as u64);
        proof {
            lemma_div_pos_is_pos((num * 32_768) as int, den as int);
            lemma_div_is_ordered((num * 32_768) as int, (den * 32_768) as int, den as int);
            lemma_div_multiples_vanish(32_768, den as int);
        }
        atan_unit(z as i64)
    } else {
        let z: u64 = (den as u64) * 32_768 / (num as u64);
        proof {
            lemma_div_pos_is_pos((den * 32_768) as int, num as int);
            lemma_div_is_ordered((den * 32_768) as int, (num * 32_768) as int, num as int);
            lemma_div_multiples_vanish(32_768, num as int);
        }
        90_000 - atan_unit(z as i64)
    }
}

/// Four-quadrant arctangent of `y / x`, in millidegrees in
/// `[-180_000, 180_000]`.
pub fn atan2_milli(y: i64, x: i64) -> (r: i64)
    requires
        -RATIO_MAX <= y <= RATIO_MAX,
        -RATIO_MAX <= x <= RATIO_MAX,
    ensures
        r == atan2_spec(y as int, x as int),
        -180_000 <= r <= 180_000,
{
    let ay = crate::math::abs64(y);
    let ax = crate::math::abs64(x);
    let base = atan_ratio_milli(ay, ax);
    if x > 0 {
        if y >= 0 {
            base
        } else {
            -base
        }
    } else if x < 0 {
        if y >= 0 {
            180_000 - base
        } else {
            -(180_000 - base)
        }
    } else {
        if y > 0 {
            90_000
        } else if y < 0 {
            -90_000
        } else {
            0
        }
    }
}

} // verus!
