//! The movement corrector: rewrite a command's forward/side scalars so the
//! world-space movement direction expressed against the command's own
//! orientation matches the one intended against the desired orientation.

use vstd::prelude::*;
use crate::angle::{sanitize_spec, Angle};
use crate::command::Command;
use crate::math::{clamp64, clamp_i, div64, div_tz};
use crate::trig::ANGLE_MAX;
use crate::vector::{Vec3, MOVE_MAX};

verus! {

/// The movement vector the corrector leaves in the command.
///
/// Both orientations are sanitized and turned into horizontal unit bases.
/// If the intent already points the same way through both bases, or the
/// current basis is degenerate (zero determinant), the movement is left
/// alone; otherwise the two-by-two system is solved by Cramer's rule and
/// the scalars saturate at `MOVE_MAX`.
#[verifier::opaque]
pub open spec fn fix_movement_spec(cmd: Command, wish_angle: Angle) -> Vec3 {
    let wb = sanitize_spec(wish_angle).basis_spec();
    let cb = sanitize_spec(cmd.view_angle).basis_spec();
    let wish_dir = cmd.movement.dir_spec(wb.0, wb.1);
    let curr_dir = cmd.movement.dir_spec(cb.0, cb.1);
    if wish_dir == curr_dir {
        cmd.movement
    } else {
        let denom = cb.1.y * cb.0.x - cb.1.x * cb.0.y;
        if denom == 0 {
            cmd.movement
        } else {
            Vec3 {
                x: clamp_i(
                    div_tz((wish_dir.x * cb.1.y - wish_dir.y * cb.1.x) * 1024, denom),
                    -MOVE_MAX as int,
                    MOVE_MAX as int,
                ) as i64,
                y: clamp_i(
                    div_tz((wish_dir.y * cb.0.x - wish_dir.x * cb.0.y) * 1024, denom),
                    -MOVE_MAX as int,
                    MOVE_MAX as int,
                ) as i64,
                z: cmd.movement.z,
            }
        }
    }
}

/// Recompute the command's forward/side scalars so that the world-space
/// direction of movement stays the one meant under `wish_angle`, even
/// though the command reports its own (possibly rewritten) orientation.
pub fn fix_movement(command: &mut Command, wish_angle: Angle)
    requires
        old(command).wf(),
        wish_angle.bounded(ANGLE_MAX as int),
    ensures
        *final(command) == (Command {
            movement: fix_movement_spec(*old(command), wish_angle),
            ..*old(command)
        }),
        final(command).wf(),
{
    proof {
        reveal(fix_movement_spec);
    }
    let wish = wish_angle.sanitize();
    let curr = command.view_angle.sanitize();
    let (wish_forward, wish_right, _wish_up) = wish.basis_vectors();
    let (curr_forward, curr_right, _curr_up) = curr.basis_vectors();

    let wish_dir = command.movement.dir(wish_forward, wish_right);
    let curr_dir = command.movement.dir(curr_forward, curr_right);

    if wish_dir != curr_dir {
        proof {
            assert(-0x10_0000 <= curr_right.y * curr_forward.x <= 0x10_0000
                && -0x10_0000 <= curr_right.x * curr_forward.y <= 0x10_0000
                && -0x4000_0000_0000 <= wish_dir.x * curr_right.y <= 0x4000_0000_0000
                && -0x4000_0000_0000 <= wish_dir.y * curr_right.x <= 0x4000_0000_0000
                && -0x4000_0000_0000 <= wish_dir.y * curr_forward.x <= 0x4000_0000_0000
                && -0x4000_0000_0000 <= wish_dir.x * curr_forward.y <= 0x4000_0000_0000)
                by (nonlinear_arith)
                requires
                    -1024 <= curr_forward.x <= 1024,
                    -1024 <= curr_forward.y <= 1024,
                    -1024 <= curr_right.x <= 1024,
                    -1024 <= curr_right.y <= 1024,
                    -0x10_0000_0000 <= wish_dir.x <= 0x10_0000_0000,
                    -0x10_0000_0000 <= wish_dir.y <= 0x10_0000_0000,
            ;
        }
        let denom = curr_right.y * curr_forward.x - curr_right.x * curr_forward.y;

        if denom != 0 {
            let nx = (wish_dir.x * curr_right.y - wish_dir.y * curr_right.x) * 1024;
            let ny = (wish_dir.y * curr_forward.x - wish_dir.x * curr_forward.y) * 1024;
            let mx = clamp64(div64(nx, denom), -MOVE_MAX, MOVE_MAX);
            let my = clamp64(div64(ny, denom), -MOVE_MAX, MOVE_MAX);
            command.movement = Vec3 { x: mx, y: my, z: command.movement.z };
        }
    }
}

/// When the intent already points the same way through both bases, the
/// corrector returns the movement unchanged.
pub proof fn lemma_corrector_noop(cmd: Command, wish_angle: Angle)
    requires
        ({
            let wb = sanitize_spec(wish_angle).basis_spec();
            let cb = sanitize_spec(cmd.view_angle).basis_spec();
            cmd.movement.dir_spec(wb.0, wb.1) == cmd.movement.dir_spec(cb.0, cb.1)
        }),
    ensures
        fix_movement_spec(cmd, wish_angle) == cmd.movement,
{
    reveal(fix_movement_spec);
}

/// Whatever the inputs, the corrector's output is defined and bounded:
/// with a degenerate basis the movement passes through untouched, and with
/// a non-degenerate one both scalars land within `MOVE_MAX`.
pub proof fn lemma_corrector_bounded(cmd: Command, wish_angle: Angle)
    requires
        cmd.wf(),
    ensures
        fix_movement_spec(cmd, wish_angle).bounded(MOVE_MAX as int),
        fix_movement_spec(cmd, wish_angle).z == cmd.movement.z,
{
    reveal(fix_movement_spec);
}

} // verus!
