//! A read-only snapshot of the live player entity, as plain values.
//!
//! The host owns the entity; whatever binds to it reads these fields out
//! once per tick and hands them to the pipeline.

use vstd::prelude::*;
use crate::vector::Vec3;

verus! {

/// How the entity currently moves.
#[derive(Clone, Copy, Debug, PartialEq, Eq, Structural)]
pub enum MoveKind {
    /// Ordinary walking physics.
    Normal,
    /// Free flight through geometry.
    NoClip,
    /// Climbing a ladder.
    Ladder,
}

/// Per-tick entity state the pipeline decides on.
#[derive(Clone, Copy, Debug, PartialEq, Eq, Structural)]
pub struct EntitySnapshot {
    /// World-space velocity, fixed-point game units.
    pub velocity: Vec3,
    /// Whether the entity stands on the ground.
    pub on_ground: bool,
    /// Whether the entity is ducking.
    pub ducking: bool,
    /// Whether the local player is only observing; the pipeline then
    /// leaves the tick alone.
    pub observing: bool,
    /// The current movement physics.
    pub move_kind: MoveKind,
}

impl EntitySnapshot {
    /// Velocity components small enough for the magnitude and arctangent
    /// helpers.
    pub open spec fn wf(self) -> bool {
        self.velocity.bounded(0x4000_0000)
    }

    /// Whether the movement physics rule out strafe assistance and
    /// orientation rewriting this tick.
    pub open spec fn passive_move_kind(self) -> bool {
        self.move_kind is NoClip || self.move_kind is Ladder
    }
}

} // verus!
