//! Pure conversions over entity-attached values: the eye offset fallback,
//! magazine counts, and the tonemap exposure range and its networked form.

use vstd::prelude::*;
use crate::vector::Vec3;
use crate::math::rem_euclid64;

verus! {

/// Standing eye height, fixed point (64 game units).
pub const EYE_STANDING: i64 = 65_536;

/// Ducking eye height, fixed point (46 game units).
pub const EYE_DUCKING: i64 = 47_104;

/// The eye offset to use for a player: the networked view offset as it
/// stands, or, when the host has left it zeroed, a vertical offset picked
/// by the duck state.
pub fn eye_offset(view_offset: Vec3, ducking: bool) -> (r: Vec3)
    ensures
        view_offset == (Vec3 { x: 0, y: 0, z: 0 }) && ducking ==> r == (Vec3 {
            x: 0,
            y: 0,
            z: EYE_DUCKING,
        }),
        view_offset == (Vec3 { x: 0, y: 0, z: 0 }) && !ducking ==> r == (Vec3 {
            x: 0,
            y: 0,
            z: EYE_STANDING,
        }),
        view_offset != (Vec3 { x: 0, y: 0, z: 0 }) ==> r == view_offset,
{
    if view_offset.is_zero() {
        let z = if ducking {
            EYE_DUCKING
        } else {
            EYE_STANDING
        };
        Vec3 { x: 0, y: 0, z }
    } else {
        view_offset
    }
}

/// The magazine count behind the host's raw netvar: negative means no
/// magazine; otherwise the host stores the count in the low sixteen bits.
pub fn magazine_of(raw: i32) -> (r: Option<u16>)
    ensures
        raw < 0 ==> r is None,
        raw >= 0 ==> r == Some((raw as int % 0x1_0000) as u16),
{
    if raw < 0 {
        None
    } else {
        let low = rem_euclid64(raw as i64, 0x1_0000);
        Some(low as u16)
    }
}

/// One end of an exposure range.
#[derive(Clone, Copy, Debug, PartialEq, Eq, Structural)]
pub enum ExposureBound {
    /// The range includes this value.
    Included(u16),
    /// The range stops just short of this value.
    Excluded(u16),
    /// The range is open on this side.
    Unbounded,
}

/// A tonemap exposure range: its lower and upper bound.
#[derive(Clone, Copy, Debug, PartialEq, Eq, Structural)]
pub struct Exposure {
    pub start: ExposureBound,
    pub end: ExposureBound,
}

/// The netvar value standing for one exposure bound: an excluded bound
/// backs off by one (saturating), an open bound has no value.
pub open spec fn bound_netvar(b: ExposureBound) -> Option<int> {
    match b {
        ExposureBound::Included(v) => Some(v as int),
        ExposureBound::Excluded(v) => Some(
            if v == 0 {
                0int
            } else {
                v as int - 1
            },
        ),
        ExposureBound::Unbounded => None,
    }
}

impl Exposure {
    /// An exposure range from its two bounds.
    pub fn from_bounds(start: ExposureBound, end: ExposureBound) -> (e: Exposure)
        ensures
            e == (Exposure { start, end }),
    {
        Exposure { start, end }
    }

    /// The four netvars that store this range: the two enable flags and
    /// the two values, with zero standing in for an open lower bound and
    /// the largest value for an open upper bound.
    pub fn to_netvars(&self) -> (r: (bool, bool, i32, i32))
        ensures
            r.0 == (bound_netvar(self.start) is Some),
            r.1 == (bound_netvar(self.end) is Some),
            bound_netvar(self.start) is Some ==> r.2 == bound_netvar(self.start)->0,
            bound_netvar(self.start) is None ==> r.2 == 0i32,
            bound_netvar(self.end) is Some ==> r.3 == bound_netvar(self.end)->0,
            bound_netvar(self.end) is None ==> r.3 == 0x7fff_ffffi32,
    {
        let start = match self.start {
            ExposureBound::Included(v) => Some(v as i32),
            ExposureBound::Excluded(v) => {
                let backed = if v == 0 {
                    0u16
                } else {
                    v - 1
                };
                Some(backed as i32)
            },
            ExposureBound::Unbounded => None,
        };
        let end = match self.end {
            ExposureBound::Included(v) => Some(v as i32),
            ExposureBound::Excluded(v) => {
                let backed = if v == 0 {
                    0u16
                } else {
                    v - 1
                };
                Some(backed as i32)
            },
            ExposureBound::Unbounded => None,
        };
        let start_enabled = start.is_some();
        let end_enabled = end.is_some();
        let start_value = match start {
            Some(v) => v,
            None => 0,
        };
        let end_value = match end {
            Some(v) => v,
            None => 0x7fff_ffff,
        };
        (start_enabled, end_enabled, start_value, end_value)
    }

    /// The exposure range the four netvars describe: both flags give a
    /// closed range from the minimum value, only the lower flag a range
    /// open above, only the upper flag a range open below, and neither no
    /// override at all. (The host stores the minimum in both cases that
    /// read a single value.)
    pub fn from_netvars(min_enabled: bool, max_enabled: bool, min: u16, max: u16) -> (r: Option<
        Exposure,
    >)
        ensures
            min_enabled && max_enabled ==> r == Some(
                Exposure {
                    start: ExposureBound::Included(min),
                    end: ExposureBound::Included(max),
                },
            ),
            min_enabled && !max_enabled ==> r == Some(
                Exposure { start: ExposureBound::Included(min), end: ExposureBound::Unbounded },
            ),
            !min_enabled && max_enabled ==> r == Some(
                Exposure { start: ExposureBound::Unbounded, end: ExposureBound::Included(min) },
            ),
            !min_enabled && !max_enabled ==> r is None,
    {
        match (min_enabled, max_enabled) {
            (true, true) => Some(
                Exposure {
                    start: ExposureBound::Included(min),
                    end: ExposureBound::Included(max),
                },
            ),
            (true, false) => Some(
                Exposure { start: ExposureBound::Included(min), end: ExposureBound::Unbounded },
            ),
            (false, true) => Some(
                Exposure { start: ExposureBound::Unbounded, end: ExposureBound::Included(min) },
            ),
            (false, false) => None,
        }
    }
}

} // verus!
