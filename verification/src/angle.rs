//! Orientations in millidegrees and their conversion to basis vectors.

use vstd::prelude::*;
use vstd::arithmetic::div_mod::{
    lemma_mod_add_multiples_vanish, lemma_mod_division_less_than_divisor, lemma_small_mod,
};
use crate::math::{abs_i, clamp64, clamp_i, div64, div_tz, lemma_div_tz_bound};
use crate::trig::{
    atan2_milli, atan2_spec, cos_milli, cos_spec, sin_milli, sin_spec, wrap_spec, ANGLE_MAX,
    UNIT,
};
use crate::vector::Vec3;

verus! {

/// An orientation: pitch, yaw and roll in millidegrees.
#[derive(Clone, Copy, Debug, PartialEq, Eq, Structural)]
pub struct Angle {
    pub pitch: i64,
    pub yaw: i64,
    pub roll: i64,
}

/// Sanitized form of an orientation: pitch clamped into `[-89, 89]`
/// degrees, yaw wrapped into `(-180, 180]` degrees, roll untouched.
pub open spec fn sanitize_spec(a: Angle) -> Angle {
    Angle {
        pitch: clamp_i(a.pitch as int, -89_000, 89_000) as i64,
        yaw: wrap_spec(a.yaw as int) as i64,
        roll: a.roll,
    }
}

impl Angle {
    /// All components within `b` in magnitude.
    pub open spec fn bounded(self, b: int) -> bool {
        &&& -b <= self.pitch <= b
        &&& -b <= self.yaw <= b
        &&& -b <= self.roll <= b
    }

    /// Whether pitch and yaw already lie in their sanitized ranges.
    pub open spec fn sane(self) -> bool {
        &&& -89_000 <= self.pitch <= 89_000
        &&& -180_000 < self.yaw <= 180_000
    }

    /// The zero orientation.
    pub fn zero() -> (a: Angle)
        ensures
            a == (Angle { pitch: 0, yaw: 0, roll: 0 }),
    {
        Angle { pitch: 0, yaw: 0, roll: 0 }
    }

    /// Build an orientation from its components.
    pub fn from_pyr(pitch: i64, yaw: i64, roll: i64) -> (a: Angle)
        ensures
            a == (Angle { pitch, yaw, roll }),
    {
        Angle { pitch, yaw, roll }
    }

    /// Clamp pitch into `[-89, 89]` degrees and wrap yaw into
    /// `(-180, 180]` degrees; roll passes through.
    pub fn sanitize(&self) -> (r: Angle)
        requires
            self.bounded(ANGLE_MAX as int),
        ensures
            r == sanitize_spec(*self),
            r.sane(),
            r.roll == self.roll,
    {
        Angle {
            pitch: clamp64(self.pitch, -89_000, 89_000),
            yaw: crate::trig::wrap_milli(self.yaw),
            roll: self.roll,
        }
    }

    /// The unnormalized forward vector of this orientation, at `UNIT` scale.
    pub open spec fn raw_forward_spec(self) -> Vec3 {
        let sp = sin_spec(self.pitch as int);
        let cp = cos_spec(self.pitch as int);
        let sy = sin_spec(self.yaw as int);
        let cy = cos_spec(self.yaw as int);
        Vec3 {
            x: div_tz(cp * cy, 1024) as i64,
            y: div_tz(cp * sy, 1024) as i64,
            z: (-sp) as i64,
        }
    }

    /// The unnormalized right vector of this orientation, at `UNIT` scale.
    pub open spec fn raw_right_spec(self) -> Vec3 {
        let sp = sin_spec(self.pitch as int);
        let sy = sin_spec(self.yaw as int);
        let cy = cos_spec(self.yaw as int);
        let sr = sin_spec(self.roll as int);
        let cr = cos_spec(self.roll as int);
        let t = div_tz(sr * sp, 1024);
        Vec3 {
            x: div_tz(-(t * cy) + cr * sy, 1024) as i64,
            y: div_tz(-(t * sy) - cr * cy, 1024) as i64,
            z: div_tz(-(sr * cos_spec(self.pitch as int)), 1024) as i64,
        }
    }

    /// The up vector of this orientation, at `UNIT` scale.
    pub open spec fn raw_up_spec(self) -> Vec3 {
        let sp = sin_spec(self.pitch as int);
        let cp = cos_spec(self.pitch as int);
        let sy = sin_spec(self.yaw as int);
        let cy = cos_spec(self.yaw as int);
        let sr = sin_spec(self.roll as int);
        let cr = cos_spec(self.roll as int);
        let t = div_tz(cr * sp, 1024);
        Vec3 {
            x: div_tz(t * cy + sr * sy, 1024) as i64,
            y: div_tz(t * sy - sr * cy, 1024) as i64,
            z: div_tz(cr * cp, 1024) as i64,
        }
    }

    /// The basis `basis_vectors` returns: forward and right are the
    /// horizontal projections rescaled to unit length (zero when the
    /// projection vanishes), up is the raw vertical basis vector.
    pub open spec fn basis_spec(self) -> (Vec3, Vec3, Vec3) {
        (
            self.raw_forward_spec().normalized2d_spec(),
            self.raw_right_spec().normalized2d_spec(),
            self.raw_up_spec(),
        )
    }

    /// Forward, right and up basis vectors of this orientation. Forward and
    /// right have their vertical component zeroed and are rescaled to unit
    /// length in the horizontal plane; an orientation whose projection has
    /// no length yields a zero vector instead.
    pub fn basis_vectors(&self) -> (r: (Vec3, Vec3, Vec3))
        requires
            self.bounded(ANGLE_MAX as int),
        ensures
            r == self.basis_spec(),
            r.0.bounded(UNIT as int),
            r.1.bounded(UNIT as int),
            r.2.bounded(4096),
    {
        let sp = sin_milli(self.pitch);
        let cp = cos_milli(self.pitch);
        let sy = sin_milli(self.yaw);
        let cy = cos_milli(self.yaw);
        let sr = sin_milli(self.roll);
        let cr = cos_milli(self.roll);
        proof {
            lemma_unit_product(sp as int, cy as int);
            lemma_unit_product(cp as int, cy as int);
            lemma_unit_product(cp as int, sy as int);
            lemma_unit_product(sr as int, sp as int);
            lemma_unit_product(cr as int, sp as int);
            lemma_unit_product(sr as int, cp as int);
            lemma_unit_product(cr as int, cp as int);
            lemma_unit_product(cr as int, sy as int);
            lemma_unit_product(cr as int, cy as int);
            lemma_unit_product(sr as int, sy as int);
            lemma_unit_product(sr as int, cy as int);
        }
        let forward = Vec3 {
            x: div64(cp * cy, 1024),
            y: div64(cp * sy, 1024),
            z: -sp,
        };
        let tr = div64(sr * sp, 1024);
        proof {
            lemma_unit_product(tr as int, cy as int);
            lemma_unit_product(tr as int, sy as int);
        }
        let right = Vec3 {
            x: div64(-(tr * cy) + cr * sy, 1024),
            y: div64(-(tr * sy) - cr * cy, 1024),
            z: div64(-(sr * cp), 1024),
        };
        let tu = div64(cr * sp, 1024);
        proof {
            lemma_unit_product(tu as int, cy as int);
            lemma_unit_product(tu as int, sy as int);
        }
        let up = Vec3 {
            x: div64(tu * cy + sr * sy, 1024),
            y: div64(tu * sy - sr * cy, 1024),
            z: div64(cr * cp, 1024),
        };
        proof {
            lemma_div_tz_bound(tu as int * cy as int + sr as int * sy as int, 1024, 4096);
            lemma_div_tz_bound(tu as int * sy as int - sr as int * cy as int, 1024, 4096);
            lemma_div_tz_bound(cr as int * cp as int, 1024, 4096);
        }
        (forward.normalized2d(), right.normalized2d(), up)
    }
}

/// The yaw, in millidegrees, of the horizontal direction a vector points
/// in; the zero vector reads as yaw zero.
pub open spec fn vector_yaw_spec(v: Vec3) -> int {
    atan2_spec(v.y as int, v.x as int)
}

/// The yaw of the horizontal direction `v` points in.
pub fn vector_yaw(v: &Vec3) -> (r: i64)
    requires
        v.bounded(crate::trig::RATIO_MAX as int),
    ensures
        r == vector_yaw_spec(*v),
        -180_000 <= r <= 180_000,
{
    atan2_milli(v.y, v.x)
}

/// A product of two values within `UNIT`, divided back down, stays within
/// `UNIT`; the sum of two such products stays within `2 * UNIT`.
proof fn lemma_unit_product(a: int, b: int)
    requires
        -2048 <= a <= 2048,
        -1024 <= b <= 1024,
    ensures
        abs_i(a * b) <= 2048 * 1024,
        abs_i(div_tz(a * b, 1024)) <= 2048,
{
    assert(abs_i(a * b) <= 2048 * 1024) by (nonlinear_arith)
        requires
            -2048 <= a <= 2048,
            -1024 <= b <= 1024,
    ;
    lemma_div_tz_bound(a * b, 1024, 2048);
}

/// Wrapping an already wrapped yaw changes nothing.
pub proof fn lemma_wrap_idempotent(y: int)
    ensures
        wrap_spec(wrap_spec(y)) == wrap_spec(y),
        -180_000 < wrap_spec(y) <= 180_000,
{
    lemma_mod_division_less_than_divisor(y, 360_000);
    let r = wrap_spec(y);
    if 0 <= r <= 180_000 {
        lemma_small_mod(r as nat, 360_000nat);
    } else {
        lemma_mod_add_multiples_vanish(r, 360_000);
        lemma_small_mod((r + 360_000) as nat, 360_000nat);
    }
}

/// Sanitizing is idempotent, and a sanitized pitch lies within
/// `[-89, 89]` degrees.
pub proof fn lemma_sanitize_idempotent(a: Angle)
    ensures
        sanitize_spec(sanitize_spec(a)) == sanitize_spec(a),
        -89_000 <= sanitize_spec(a).pitch <= 89_000,
        -180_000 < sanitize_spec(a).yaw <= 180_000,
{
    lemma_wrap_idempotent(a.yaw as int);
}

} // verus!
