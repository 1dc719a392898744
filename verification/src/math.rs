//! Scalar fixed-point helpers: absolute value, truncating division,
//! Euclidean remainder, integer square root, clamping.

use vstd::prelude::*;
use vstd::arithmetic::div_mod::{
    lemma_div_nonincreasing, lemma_fundamental_div_mod,
    lemma_fundamental_div_mod_converse_mod,
};

verus! {

/// Values this module's helpers accept: comfortably inside `i64`, so that
/// negation and small sums never wrap.
pub const SCALAR_MAX: i64 = 0x4000_0000_0000_0000;

/// Absolute value, as a mathematical integer.
pub open spec fn abs_i(a: int) -> int {
    if a >= 0 {
        a
    } else {
        -a
    }
}

/// Division truncating toward zero, as Rust's `/` on machine integers does.
/// Spec-mode `/` is Euclidean, so the sign cases are spelled out over
/// non-negative operands, where the two notions agree.
pub open spec fn div_tz(a: int, b: int) -> int {
    if (a >= 0) == (b >= 0) {
        abs_i(a) / abs_i(b)
    } else {
        -(abs_i(a) / abs_i(b))
    }
}

/// Absolute value.
pub fn abs64(a: i64) -> (r: i64)
    requires
        -SCALAR_MAX <= a <= SCALAR_MAX,
    ensures
        r == abs_i(a as int),
{
    if a >= 0 {
        a
    } else {
        -a
    }
}

/// Truncating signed division, built on unsigned division so that the
/// result is pinned down exactly.
pub fn div64(a: i64, b: i64) -> (q: i64)
    requires
        b != 0,
        -SCALAR_MAX <= a <= SCALAR_MAX,
        -SCALAR_MAX <= b <= SCALAR_MAX,
    ensures
        q == div_tz(a as int, b as int),
        abs_i(q as int) <= abs_i(a as int),
{
    let ua: u64 = if a >= 0 {
        a as u64
    } else {
        (-a) as u64
    };
    let ub: u64 = if b >= 0 {
        b as u64
    } else {
        (-b) as u64
    };
    let uq: u64 = ua / ub;
    proof {
        lemma_div_nonincreasing(ua as int, ub as int);
    }
    if (a >= 0) == (b >= 0) {
        uq as i64
    } else {
        -(uq as i64)
    }
}

/// Euclidean remainder by a positive modulus: the result is in `[0, m)`
/// and agrees with spec-mode `%`.
pub fn rem_euclid64(a: i64, m: i64) -> (r: i64)
    requires
        0 < m <= SCALAR_MAX,
        -SCALAR_MAX <= a <= SCALAR_MAX,
    ensures
        r == a as int % m as int,
        0 <= r < m,
{
    if a >= 0 {
        let r = ((a as u64) % (m as u64)) as i64;
        r
    } else {
        let n: u64 = (-a) as u64;
        let x: u64 = n % (m as u64);
        proof {
            lemma_fundamental_div_mod(n as int, m as int);
            let q = n as int / m as int;
            assert(n as int == m as int * q + x as int);
            if x == 0 {
                assert(a as int == (-q) * (m as int) + 0) by (nonlinear_arith)
                    requires
                        n as int == m as int * q,
                        a as int == -(n as int),
                ;
                lemma_fundamental_div_mod_converse_mod(a as int, m as int, -q, 0);
            } else {
                assert(a as int == (-q - 1) * (m as int) + (m as int - x as int))
                    by (nonlinear_arith)
                    requires
                        n as int == m as int * q + x as int,
                        a as int == -(n as int),
                ;
                lemma_fundamental_div_mod_converse_mod(
                    a as int,
                    m as int,
                    -q - 1,
                    m as int - x as int,
                );
            }
        }
        if x == 0 {
            0
        } else {
            (m as u64 - x) as i64
        }
    }
}

/// Truncating division shrinks: a value within `b * d` divided by `d`
/// lands within `b`.
pub proof fn lemma_div_tz_bound(a: int, d: int, b: int)
    requires
        d > 0,
        0 <= b,
        abs_i(a) <= b * d,
    ensures
        abs_i(div_tz(a, d)) <= b,
{
    vstd::arithmetic::div_mod::lemma_div_is_ordered(abs_i(a), b * d, d);
    vstd::arithmetic::div_mod::lemma_div_multiples_vanish(b, d);
    vstd::arithmetic::div_mod::lemma_div_pos_is_pos(abs_i(a), d);
    assert(b * d == d * b) by (nonlinear_arith);
    assert(abs_i(a) / d <= b);
    assert(abs_i(d) == d);
    assert(div_tz(a, d) == abs_i(a) / d || div_tz(a, d) == -(abs_i(a) / d));
}

/// The integer square root: the unique `r >= 0` with
/// `r * r <= v < (r + 1) * (r + 1)`.
pub open spec fn sqrt_i(v: int) -> int {
    choose|r: int| 0 <= r && #[trigger] (r * r) <= v < (r + 1) * (r + 1)
}

/// Any two integers that bracket `v` as a square root does are equal.
proof fn lemma_sqrt_unique(v: int, r1: int, r2: int)
    requires
        0 <= r1,
        0 <= r2,
        r1 * r1 <= v < (r1 + 1) * (r1 + 1),
        r2 * r2 <= v < (r2 + 1) * (r2 + 1),
    ensures
        r1 == r2,
{
    assert(r1 == r2) by (nonlinear_arith)
        requires
            0 <= r1,
            0 <= r2,
            r1 * r1 <= v < (r1 + 1) * (r1 + 1),
            r2 * r2 <= v < (r2 + 1) * (r2 + 1),
    ;
}

/// Every non-negative integer has an integer square root.
pub proof fn lemma_sqrt_exists(v: int)
    requires
        0 <= v,
    ensures
        exists|r: int| 0 <= r && #[trigger] (r * r) <= v < (r + 1) * (r + 1),
    decreases v,
{
    if v == 0 {
        assert(0 <= 0int && 0int * 0int <= v < (0int + 1) * (0int + 1));
    } else {
        lemma_sqrt_exists(v - 1);
        let r = choose|r: int| 0 <= r && #[trigger] (r * r) <= v - 1 < (r + 1) * (r + 1);
        if v < (r + 1) * (r + 1) {
            assert(0 <= r && r * r <= v < (r + 1) * (r + 1));
        } else {
            assert((r + 1) * (r + 1) <= v < (r + 2) * (r + 2)) by (nonlinear_arith)
                requires
                    0 <= r,
                    r * r <= v - 1 < (r + 1) * (r + 1),
                    v >= (r + 1) * (r + 1),
            ;
            assert(0 <= r + 1 && (r + 1) * (r + 1) <= v < ((r + 1) + 1) * ((r + 1) + 1));
        }
    }
}

/// Integer square root: the greatest `r` with `r * r <= v`.
pub fn isqrt64(v: u64) -> (r: u64)
    ensures
        r * r <= v < (r + 1) * (r + 1),
        r == sqrt_i(v as int),
{
    let mut lo: u64 = 0;
    let mut hi: u64 = 0x1_0000_0000;
    proof {
        assert(0x1_0000_0000u64 * 0x1_0000_0000u64 > v as u64) by (nonlinear_arith);
    }
    while lo + 1 < hi
        invariant
            lo < hi <= 0x1_0000_0000,
            lo * lo <= v,
            hi * hi > v,
        decreases hi - lo,
    {
        let mid: u64 = lo + (hi - lo) / 2;
        proof {
            assert((mid as u128) * (mid as u128) < 0x1_0000_0000_0000_0000_0000u128)
                by (nonlinear_arith)
                requires
                    mid <= 0x1_0000_0000u64,
            ;
        }
        if (mid as u128) * (mid as u128) <= v as u128 {
            proof {
                assert(mid * mid <= v) by (nonlinear_arith)
                    requires
                        (mid as u128) * (mid as u128) <= v as u128,
                        mid <= 0x1_0000_0000u64,
                ;
            }
            lo = mid;
        } else {
            proof {
                assert(mid * mid > v) by (nonlinear_arith)
                    requires
                        (mid as u128) * (mid as u128) > v as u128,
                        mid <= 0x1_0000_0000u64,
                ;
            }
            hi = mid;
        }
    }
    proof {
        assert((lo + 1) * (lo + 1) >= hi * hi) by (nonlinear_arith)
            requires
                lo + 1 >= hi,
                lo < hi,
        ;
        assert(lo as int * lo as int <= v as int);
        assert((v as int) < (lo as int + 1) * (lo as int + 1));
        lemma_sqrt_unique(v as int, lo as int, sqrt_i(v as int));
    }
    lo
}

/// Clamp `x` into `[lo, hi]`.
pub fn clamp64(x: i64, lo: i64, hi: i64) -> (r: i64)
    requires
        lo <= hi,
    ensures
        r == clamp_i(x as int, lo as int, hi as int),
{
    if x < lo {
        lo
    } else if x > hi {
        hi
    } else {
        x
    }
}

/// Clamp, as a mathematical integer.
pub open spec fn clamp_i(x: int, lo: int, hi: int) -> int {
    if x < lo {
        lo
    } else if x > hi {
        hi
    } else {
        x
    }
}

} // verus!
