//! The desync transform: a pure map from a base orientation, a side-parity
//! bit and a configuration to the orientation that is transmitted.

use vstd::prelude::*;
use crate::angle::Angle;
use crate::trig::ANGLE_MAX;

verus! {

/// How the transmitted pitch is chosen.
#[derive(Clone, Copy, Debug, PartialEq, Eq, Structural)]
pub enum Pitch {
    /// Keep the base pitch.
    Default,
    /// Force the pitch all the way up.
    Up,
    /// Force the pitch all the way down.
    Down,
}

impl Pitch {
    /// The display label of this mode.
    pub fn as_str(&self) -> (r: &'static str)
        ensures
            *self is Default ==> r@ == "Default"@,
            *self is Up ==> r@ == "Up"@,
            *self is Down ==> r@ == "Down"@,
    {
        match self {
            Pitch::Default => "Default",
            Pitch::Up => "Up",
            Pitch::Down => "Down",
        }
    }
}

/// Desync configuration, set from outside between ticks and read fresh
/// each tick. `yaw_offset` is in millidegrees.
#[derive(Clone, Copy, Debug, PartialEq, Eq, Structural)]
pub struct AntiAim {
    pub enabled: bool,
    pub pitch: Pitch,
    pub yaw_jitter: bool,
    pub yaw_offset: i64,
    pub roll: bool,
}

/// Largest jitter sample the transform is specified over, in millidegrees.
pub const JITTER_MAX: i64 = 15_000;

/// What the desync transform returns, for a given jitter sample. With the
/// transform disabled it is the identity; otherwise pitch is forced by the
/// pitch mode, yaw gains the side-signed desync (with the jitter window in
/// place of the fixed bias when jitter is on) plus the configured offset,
/// and roll is forced to the side-signed constant when enabled.
pub open spec fn apply_spec(cfg: AntiAim, side: bool, a: Angle, jitter: int) -> Angle {
    if !cfg.enabled {
        a
    } else {
        let s: int = if side { -1 } else { 1 };
        let pitch: int = match cfg.pitch {
            Pitch::Up => -89_000,
            Pitch::Down => 89_000,
            Pitch::Default => a.pitch as int,
        };
        let desync = 58_000 * s;
        let yaw = a.yaw + cfg.yaw_offset + if cfg.yaw_jitter {
            (desync - 15_000) + jitter
        } else {
            desync
        };
        let roll: int = if cfg.roll {
            50_000 * s
        } else {
            a.roll as int
        };
        Angle { pitch: pitch as i64, yaw: yaw as i64, roll: roll as i64 }
    }
}

/// Relies on `rand::Rng::gen_range`: a sample within the requested closed
/// integer range.
#[verifier::external_body]
pub(crate) fn sample_jitter_milli() -> (r: i64)
    ensures
        0 <= r <= JITTER_MAX,
{
    rand::Rng::gen_range(&mut rand::thread_rng(), 0i64..=15_000i64)
}

impl AntiAim {
    /// The disabled configuration.
    pub fn new() -> (r: AntiAim)
        ensures
            r == (AntiAim {
                enabled: false,
                pitch: Pitch::Default,
                yaw_jitter: false,
                yaw_offset: 0,
                roll: false,
            }),
    {
        AntiAim {
            enabled: false,
            pitch: Pitch::Default,
            yaw_jitter: false,
            yaw_offset: 0,
            roll: false,
        }
    }

    /// The configured fields stay small enough for the yaw sums to fit.
    pub open spec fn wf(self) -> bool {
        -ANGLE_MAX / 4 <= self.yaw_offset <= ANGLE_MAX / 4
    }

    /// The desync transform for one known jitter sample. Disabled, it is
    /// the identity on every input.
    pub fn apply_with_jitter(&self, side: bool, view_angle: Angle, jitter: i64) -> (r: Angle)
        requires
            self.wf(),
            view_angle.bounded(ANGLE_MAX as int / 2),
            0 <= jitter <= JITTER_MAX,
        ensures
            r == apply_spec(*self, side, view_angle, jitter as int),
            !self.enabled ==> r == view_angle,
            self.enabled && self.pitch is Up ==> r.pitch == -89_000,
            self.enabled && self.pitch is Down ==> r.pitch == 89_000,
            r.bounded(ANGLE_MAX as int),
    {
        if !self.enabled {
            return view_angle;
        }
        let s: i64 = if side {
            -1
        } else {
            1
        };
        let pitch: i64 = match self.pitch {
            Pitch::Up => -89_000,
            Pitch::Down => 89_000,
            Pitch::Default => view_angle.pitch,
        };
        let desync: i64 = 58_000 * s;
        let yaw: i64 = view_angle.yaw + self.yaw_offset + if self.yaw_jitter {
            (desync - 15_000) + jitter
        } else {
            desync
        };
        let roll: i64 = if self.roll {
            50_000 * s
        } else {
            view_angle.roll
        };
        Angle { pitch, yaw, roll }
    }

    /// The desync transform, drawing the jitter sample itself. Whatever the
    /// sample, the result is the transform's value at some jitter within
    /// the window; without jitter the sample plays no part.
    pub fn apply(&self, side: bool, view_angle: Angle) -> (r: Angle)
        requires
            self.wf(),
            view_angle.bounded(ANGLE_MAX as int / 2),
        ensures
            !self.enabled ==> r == view_angle,
            !self.yaw_jitter ==> r == apply_spec(*self, side, view_angle, 0),
            exists|j: int|
                0 <= j <= JITTER_MAX && r == apply_spec(*self, side, view_angle, j),
            self.enabled && self.pitch is Up ==> r.pitch == -89_000,
            self.enabled && self.pitch is Down ==> r.pitch == 89_000,
            r.bounded(ANGLE_MAX as int),
    {
        let jitter = sample_jitter_milli();
        let r = self.apply_with_jitter(side, view_angle, jitter);
        proof {
            assert(0 <= jitter as int <= JITTER_MAX && r == apply_spec(
                *self,
                side,
                view_angle,
                jitter as int,
            ));
        }
        r
    }
}

} // verus!

