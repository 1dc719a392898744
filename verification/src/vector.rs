//! Fixed-point three-component vectors.
//!
//! Components carry a scale of `UNIT` fractional steps per game unit where a
//! length is meant (basis vectors, directions), and plain command units where
//! a movement scalar is meant.

use vstd::prelude::*;
use vstd::arithmetic::div_mod::{lemma_div_is_ordered, lemma_div_multiples_vanish};
use crate::math::{abs_i, div64, div_tz, isqrt64, lemma_div_tz_bound, sqrt_i};
use crate::trig::UNIT;

verus! {

/// Largest movement-scalar magnitude the library accepts or produces.
pub const MOVE_MAX: i64 = 0x8_0000_0000;

/// A fixed-point vector.
#[derive(Clone, Copy, Debug, PartialEq, Eq, Structural)]
pub struct Vec3 {
    pub x: i64,
    pub y: i64,
    pub z: i64,
}

impl Vec3 {
    /// All components within `b` in magnitude.
    pub open spec fn bounded(self, b: int) -> bool {
        &&& -b <= self.x <= b
        &&& -b <= self.y <= b
        &&& -b <= self.z <= b
    }

    /// The zero vector.
    pub fn zero() -> (v: Vec3)
        ensures
            v == (Vec3 { x: 0, y: 0, z: 0 }),
    {
        Vec3 { x: 0, y: 0, z: 0 }
    }

    /// Build a vector from its components.
    pub fn from_xyz(x: i64, y: i64, z: i64) -> (v: Vec3)
        ensures
            v == (Vec3 { x, y, z }),
    {
        Vec3 { x, y, z }
    }

    /// Whether all components are zero.
    pub fn is_zero(&self) -> (r: bool)
        ensures
            r == (*self == (Vec3 { x: 0, y: 0, z: 0 })),
    {
        self.x == 0 && self.y == 0 && self.z == 0
    }

    /// Length of the horizontal projection, same scale as the components.
    pub open spec fn magnitude2d_spec(self) -> int {
        sqrt_i(self.x * self.x + self.y * self.y)
    }

    /// Full length, same scale as the components.
    pub open spec fn magnitude_spec(self) -> int {
        sqrt_i(self.x * self.x + self.y * self.y + self.z * self.z)
    }

    /// Length of the horizontal projection.
    pub fn magnitude2d(&self) -> (r: i64)
        requires
            self.bounded(0x4000_0000),
        ensures
            r == self.magnitude2d_spec(),
            0 <= r <= 0x8000_0000,
    {
        proof {
            assert(0 <= self.x * self.x <= 0x1000_0000_0000_0000
                && 0 <= self.y * self.y <= 0x1000_0000_0000_0000) by (nonlinear_arith)
                requires
                    self.bounded(0x4000_0000),
            ;
        }
        let sq: u64 = ((self.x * self.x) as u64) + ((self.y * self.y) as u64);
        let r = isqrt64(sq);
        proof {
            assert(r <= 0x8000_0000u64) by (nonlinear_arith)
                requires
                    r * r <= 0x2000_0000_0000_0000u64,
            ;
        }
        r as i64
    }

    /// Full length.
    pub fn magnitude(&self) -> (r: i64)
        requires
            self.bounded(0x4000_0000),
        ensures
            r == self.magnitude_spec(),
            0 <= r <= 0x1_0000_0000,
    {
        proof {
            assert(0 <= self.x * self.x <= 0x1000_0000_0000_0000
                && 0 <= self.y * self.y <= 0x1000_0000_0000_0000
                && 0 <= self.z * self.z <= 0x1000_0000_0000_0000) by (nonlinear_arith)
                requires
                    self.bounded(0x4000_0000),
            ;
        }
        let sq: u64 = ((self.x * self.x) as u64) + ((self.y * self.y) as u64)
            + ((self.z * self.z) as u64);
        let r = isqrt64(sq);
        proof {
            assert(r < 0x1_0000_0000u64) by (nonlinear_arith)
                requires
                    r * r <= 0x3000_0000_0000_0000u64,
            ;
        }
        r as i64
    }

    /// The horizontal projection rescaled to length `UNIT`, or the zero
    /// vector when the projection has no length to rescale.
    pub open spec fn normalized2d_spec(self) -> Vec3 {
        let l = self.magnitude2d_spec();
        if l == 0 {
            Vec3 { x: 0, y: 0, z: 0 }
        } else {
            Vec3 {
                x: div_tz(self.x * 1024, l) as i64,
                y: div_tz(self.y * 1024, l) as i64,
                z: 0,
            }
        }
    }

    /// Zero the vertical component and rescale to unit length; a vector with
    /// no horizontal extent comes back zero rather than failing.
    pub fn normalized2d(&self) -> (r: Vec3)
        requires
            self.bounded(0x4000_0000),
        ensures
            r == self.normalized2d_spec(),
            r.bounded(UNIT as int),
    {
        let l = self.magnitude2d();
        if l == 0 {
            Vec3 { x: 0, y: 0, z: 0 }
        } else {
            proof {
                lemma_component_le_magnitude2d(*self);
                lemma_scaled_div_bounded(self.x as int, l as int);
                lemma_scaled_div_bounded(self.y as int, l as int);
            }
            Vec3 {
                x: div64(self.x * 1024, l),
                y: div64(self.y * 1024, l),
                z: 0,
            }
        }
    }

    /// Linear combination of a basis weighted by this vector's first two
    /// components: the world-space direction of a movement intent
    /// (`x` forward, `y` sideways), at basis scale.
    pub open spec fn dir_spec(self, forward: Vec3, right: Vec3) -> Vec3 {
        Vec3 {
            x: div_tz(self.x * forward.x + self.y * right.x, 1024) as i64,
            y: div_tz(self.x * forward.y + self.y * right.y, 1024) as i64,
            z: 0,
        }
    }

    /// World-space direction of the movement intent held in `self`, through
    /// the horizontal basis `forward` / `right`.
    pub fn dir(&self, forward: Vec3, right: Vec3) -> (d: Vec3)
        requires
            self.bounded(MOVE_MAX as int),
            forward.bounded(UNIT as int),
            right.bounded(UNIT as int),
        ensures
            d == self.dir_spec(forward, right),
            d.bounded(2 * MOVE_MAX as int),
    {
        proof {
            assert(abs_i(self.x * forward.x) <= MOVE_MAX * 1024
                && abs_i(self.y * right.x) <= MOVE_MAX * 1024
                && abs_i(self.x * forward.y) <= MOVE_MAX * 1024
                && abs_i(self.y * right.y) <= MOVE_MAX * 1024) by (nonlinear_arith)
                requires
                    self.bounded(MOVE_MAX as int),
                    forward.bounded(UNIT as int),
                    right.bounded(UNIT as int),
            ;
            lemma_intent_product_bounded(*self, forward, right);
        }
        let dx = div64(self.x * forward.x + self.y * right.x, 1024);
        let dy = div64(self.x * forward.y + self.y * right.y, 1024);
        Vec3 { x: dx, y: dy, z: 0 }
    }
}

/// Neither horizontal component exceeds the horizontal magnitude.
proof fn lemma_component_le_magnitude2d(v: Vec3)
    requires
        v.bounded(0x4000_0000),
    ensures
        abs_i(v.x as int) <= v.magnitude2d_spec(),
        abs_i(v.y as int) <= v.magnitude2d_spec(),
{
    let s = v.x * v.x + v.y * v.y;
    let ax = abs_i(v.x as int);
    let ay = abs_i(v.y as int);
    assert(0 <= s && ax * ax <= s && ay * ay <= s) by (nonlinear_arith)
        requires
            ax == v.x || ax == -(v.x as int),
            ay == v.y || ay == -(v.y as int),
            s == v.x * v.x + v.y * v.y,
    ;
    crate::math::lemma_sqrt_exists(s);
    let m = sqrt_i(s);
    assert(ax <= m && ay <= m) by (nonlinear_arith)
        requires
            0 <= m,
            m * m <= s < (m + 1) * (m + 1),
            ax * ax <= s,
            ay * ay <= s,
            ax >= 0,
            ay >= 0,
    ;
}

/// Dividing `c * 1024` by a magnitude at least `|c|` lands within `UNIT`.
proof fn lemma_scaled_div_bounded(c: int, l: int)
    requires
        l > 0,
        abs_i(c) <= l,
    ensures
        -1024 <= div_tz(c * 1024, l) <= 1024,
{
    let ac = abs_i(c);
    assert(abs_i(c * 1024) == ac * 1024 && ac * 1024 <= l * 1024) by (nonlinear_arith)
        requires
            ac == c || ac == -c,
            ac >= 0,
            ac <= l,
    ;
    lemma_div_is_ordered(abs_i(c) * 1024, l * 1024, l);
    lemma_div_multiples_vanish(1024, l);
    assert(abs_i(c) * 1024 / l <= 1024);
    assert(abs_i(div_tz(c * 1024, l)) == abs_i(c * 1024) / l);
    vstd::arithmetic::div_mod::lemma_div_pos_is_pos(abs_i(c * 1024), l);
}

/// The weighted-basis sums stay well inside the division helper's domain.
proof fn lemma_intent_product_bounded(m: Vec3, forward: Vec3, right: Vec3)
    requires
        m.bounded(MOVE_MAX as int),
        forward.bounded(UNIT as int),
        right.bounded(UNIT as int),
    ensures
        abs_i(m.x * forward.x + m.y * right.x) <= 2 * MOVE_MAX * 1024,
        abs_i(m.x * forward.y + m.y * right.y) <= 2 * MOVE_MAX * 1024,
        abs_i(div_tz(m.x * forward.x + m.y * right.x, 1024)) <= 2 * MOVE_MAX,
        abs_i(div_tz(m.x * forward.y + m.y * right.y, 1024)) <= 2 * MOVE_MAX,
{
    assert(-(2 * MOVE_MAX * 1024) <= m.x * forward.x + m.y * right.x <= 2 * MOVE_MAX * 1024
        && -(2 * MOVE_MAX * 1024) <= m.x * forward.y + m.y * right.y
            <= 2 * MOVE_MAX * 1024) by (nonlinear_arith)
        requires
            m.bounded(MOVE_MAX as int),
            forward.bounded(UNIT as int),
            right.bounded(UNIT as int),
    ;
    lemma_div_tz_bound(m.x * forward.x + m.y * right.x, 1024, 2 * MOVE_MAX as int);
    lemma_div_tz_bound(m.x * forward.y + m.y * right.y, 1024, 2 * MOVE_MAX as int);
}

} // verus!
