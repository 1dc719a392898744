//! One simulation command: the input the host builds for a single tick,
//! which the pipeline rewrites in place before the host serializes it.

use vstd::prelude::*;
use crate::angle::Angle;
use crate::trig::ANGLE_MAX;
use crate::vector::{Vec3, MOVE_MAX};

verus! {

/// A client input for one tick. `movement.x` is the forward scalar,
/// `movement.y` the sideways scalar; the vertical component is unused.
#[derive(Clone, Copy, Debug, PartialEq, Eq, Structural)]
pub struct Command {
    /// The host's tick counter at the time the command was built; zero
    /// marks a command the host has not filled in.
    pub tick_count: i32,
    /// The command sequence number, monotone under normal operation.
    pub command: i32,
    /// The orientation the command reports.
    pub view_angle: Angle,
    /// Movement intent: forward and sideways scalars.
    pub movement: Vec3,
    /// Primary-fire intent.
    pub attack: bool,
    /// Duck intent.
    pub duck: bool,
    /// Jump intent.
    pub jump: bool,
    /// Host flag asking for instant crouch.
    pub fast_duck: bool,
}

impl Command {
    /// The numeric fields lie within the ranges every pipeline entry point
    /// accepts: movement scalars within `MOVE_MAX`, angles within
    /// `ANGLE_MAX`.
    pub open spec fn wf(self) -> bool {
        &&& self.movement.bounded(MOVE_MAX as int)
        &&& self.view_angle.bounded(ANGLE_MAX as int)
    }

    /// A command with every field zeroed or cleared.
    pub fn zeroed() -> (c: Command)
        ensures
            c == (Command {
                tick_count: 0,
                command: 0,
                view_angle: Angle { pitch: 0, yaw: 0, roll: 0 },
                movement: Vec3 { x: 0, y: 0, z: 0 },
                attack: false,
                duck: false,
                jump: false,
                fast_duck: false,
            }),
            c.wf(),
    {
        Command {
            tick_count: 0,
            command: 0,
            view_angle: Angle { pitch: 0, yaw: 0, roll: 0 },
            movement: Vec3 { x: 0, y: 0, z: 0 },
            attack: false,
            duck: false,
            jump: false,
            fast_duck: false,
        }
    }
}

} // verus!
