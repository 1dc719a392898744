//! The per-tick state machine: edge detection, airborne strafe assistance,
//! the transmission decision, the desync transform, movement correction and
//! the tick-regression guard, composed in the order the host sees them.

use vstd::prelude::*;
use vstd::arithmetic::div_mod::{
    lemma_fundamental_div_mod, lemma_mod_division_less_than_divisor, lemma_mod_multiples_basic,
};
use crate::angle::{sanitize_spec, vector_yaw_spec, Angle};
use crate::anti_aim::{apply_spec, AntiAim, JITTER_MAX};
use crate::command::Command;
use crate::math::{abs_i, abs64, rem_euclid64};
use crate::movement::{fix_movement, fix_movement_spec};
use crate::pose::PoseBranch;
use crate::snapshot::{EntitySnapshot, MoveKind};
use crate::trig::{atan_ratio_milli, atan_ratio_spec, wrap_milli, wrap_spec, ANGLE_MAX};
use crate::vector::{Vec3, MOVE_MAX};

verus! {

/// Fifteen game units, in fixed point: the speed below which the strafe
/// assist treats the player as standing still.
pub const SLOW_SPEED: i64 = 15_360;

/// Thirty game units, in fixed point: the numerator of the retrack angle.
pub const RETRACK_SPEED: i64 = 30_720;

/// The cross-tick memory the pipeline owns: intent latches from the last
/// tick, the last sanitized desired yaw, the last command sequence number
/// seen, and the fake-lag period.
#[derive(Clone, Copy, Debug, PartialEq, Eq, Structural)]
pub struct MovementState {
    /// Whether the attack intent was asserted last tick.
    pub was_attacking: bool,
    /// Whether the jump intent was asserted last tick.
    pub was_jumping: bool,
    /// The previous tick's sanitized desired yaw, in millidegrees; never
    /// the transmitted one.
    pub old_yaw: i64,
    /// The last command sequence number the pipeline processed.
    pub last_command: i32,
    /// Transmit one command in this many; zero turns fake lag off.
    pub fake_lag_cadence: u8,
}

impl MovementState {
    /// `old_yaw` always holds a sanitized yaw.
    pub open spec fn wf(self) -> bool {
        -180_000 <= self.old_yaw <= 180_000
    }

    /// The initial state: all latches clear, nothing seen yet, fake lag
    /// off.
    pub fn new() -> (s: MovementState)
        ensures
            s == (MovementState {
                was_attacking: false,
                was_jumping: false,
                old_yaw: 0,
                last_command: 0,
                fake_lag_cadence: 0,
            }),
            s.wf(),
    {
        MovementState {
            was_attacking: false,
            was_jumping: false,
            old_yaw: 0,
            last_command: 0,
            fake_lag_cadence: 0,
        }
    }
}

/// Whether the command with this sequence number is transmitted under the
/// given fake-lag cadence: with a cadence of `n`, every `n`-th sequence
/// number goes out and the other `n - 1` are withheld; cadence zero
/// transmits everything.
pub open spec fn transmit_spec(sequence: int, cadence: int) -> bool {
    cadence == 0 || sequence % cadence == 0
}

/// Whether the command with this sequence number is transmitted.
pub fn should_transmit(sequence: i32, cadence: u8) -> (r: bool)
    ensures
        r == transmit_spec(sequence as int, cadence as int),
{
    if cadence == 0 {
        true
    } else {
        rem_euclid64(sequence as i64, cadence as i64) == 0
    }
}

/// In every window of `cadence` consecutive sequence numbers there is
/// exactly one that is transmitted.
pub proof fn lemma_fake_lag_cadence(cadence: int, k: int)
    requires
        cadence > 0,
    ensures
        exists|s: int| k <= s < k + cadence && #[trigger] transmit_spec(s, cadence),
        forall|s1: int, s2: int|
            k <= s1 < k + cadence && k <= s2 < k + cadence && #[trigger] transmit_spec(
                s1,
                cadence,
            ) && #[trigger] transmit_spec(s2, cadence) ==> s1 == s2,
{
    let r = k % cadence;
    lemma_mod_division_less_than_divisor(k, cadence);
    lemma_fundamental_div_mod(k, cadence);
    let s0 = if r == 0 {
        k
    } else {
        k + cadence - r
    };
    if r != 0 {
        assert(s0 == (k / cadence + 1) * cadence) by (nonlinear_arith)
            requires
                k == cadence * (k / cadence) + r,
                s0 == k + cadence - r,
        ;
        lemma_mod_multiples_basic(k / cadence + 1, cadence);
    }
    assert(k <= s0 < k + cadence && transmit_spec(s0, cadence));
    assert forall|s1: int, s2: int|
        k <= s1 < k + cadence && k <= s2 < k + cadence && #[trigger] transmit_spec(s1, cadence)
            && #[trigger] transmit_spec(s2, cadence) implies s1 == s2 by {
        lemma_fundamental_div_mod(s1, cadence);
        lemma_fundamental_div_mod(s2, cadence);
        assert(s1 == s2) by (nonlinear_arith)
            requires
                s1 == cadence * (s1 / cadence),
                s2 == cadence * (s2 / cadence),
                -cadence < s1 - s2 < cadence,
                cadence > 0,
        ;
    }
}

/// The intent edge detection of one tick: latch this tick's attack and
/// jump intents; clear a repeated attack (and its latch) so one press
/// fires once; while jumping, drop duck on the ground and jump in the air.
pub open spec fn edge_spec(st: MovementState, cmd: Command, on_ground: bool) -> (
    MovementState,
    Command,
) {
    let st1 = MovementState { was_attacking: cmd.attack, was_jumping: cmd.jump, ..st };
    let st2 = if cmd.attack && st.was_attacking {
        MovementState { was_attacking: false, ..st1 }
    } else {
        st1
    };
    let cmd1 = if cmd.attack && st.was_attacking {
        Command { attack: false, ..cmd }
    } else {
        cmd
    };
    let cmd2 = if cmd.jump {
        if on_ground {
            Command { duck: false, ..cmd1 }
        } else {
            Command { jump: false, ..cmd1 }
        }
    } else {
        cmd1
    };
    (st2, cmd2)
}

/// Run the intent edge detection on the live state and command.
pub fn apply_edges(state: &mut MovementState, command: &mut Command, on_ground: bool)
    ensures
        *final(state) == edge_spec(*old(state), *old(command), on_ground).0,
        *final(command) == edge_spec(*old(state), *old(command), on_ground).1,
        old(command).attack && old(state).was_attacking ==> !final(command).attack
            && !final(state).was_attacking,
{
    let was_attacking = state.was_attacking;
    state.was_attacking = command.attack;
    state.was_jumping = command.jump;
    if command.attack {
        if was_attacking {
            command.attack = false;
            state.was_attacking = false;
        }
    }
    if command.jump {
        if on_ground {
            command.duck = false;
        } else {
            command.jump = false;
        }
    }
}

/// The airborne strafe assist. From the horizontal speed it derives the
/// ideal strafe angle `atan(15 / speed)` and the retrack window
/// `2 * atan(30 / speed)`; from the command it derives the desired yaw
/// (the view yaw less the movement intent's own yaw) and its signed
/// distance from last tick's desired yaw. The branch picked snaps toward
/// a side-biased ideal angle, retracks toward the velocity direction, or
/// makes a minimal yaw-only correction; each sets the side-movement scalar
/// to the signed horizontal-speed tunable, clears forward movement, and
/// hands the chosen yaw to the movement corrector. The new desired yaw is
/// remembered in `old_yaw`.
#[verifier::opaque]
pub open spec fn strafe_spec(
    st: MovementState,
    cmd: Command,
    velocity: Vec3,
    h: int,
    side: int,
) -> (MovementState, Command) {
    let magnitude = velocity.magnitude2d_spec();
    let ideal = atan_ratio_spec(SLOW_SPEED as int, magnitude);
    let strafe_yaw = atan2_of_movement(cmd.movement);
    let wish0 = sanitize_spec(
        Angle {
            pitch: cmd.view_angle.pitch,
            yaw: (cmd.view_angle.yaw - strafe_yaw) as i64,
            roll: cmd.view_angle.roll,
        },
    );
    let yaw_delta = wrap_spec(wish0.yaw - st.old_yaw);
    let abs_delta = abs_i(yaw_delta);
    let st1 = MovementState { old_yaw: wish0.yaw, ..st };
    let vel_yaw = vector_yaw_spec(velocity);
    let vel_delta = wrap_spec(wish0.yaw - vel_yaw);
    let retrack = 2 * atan_ratio_spec(RETRACK_SPEED as int, magnitude);
    let pick: (int, int) = if abs_delta <= ideal || abs_delta >= 30_000 {
        if vel_delta <= retrack || magnitude <= SLOW_SPEED {
            if -retrack <= vel_delta || magnitude <= SLOW_SPEED {
                (wish0.yaw + side * ideal, h * side)
            } else {
                (vel_yaw - retrack, h)
            }
        } else {
            (vel_yaw + retrack, -h)
        }
    } else if yaw_delta > 0 {
        (wish0.yaw as int, -h)
    } else {
        (wish0.yaw as int, h)
    };
    let wish = Angle { pitch: wish0.pitch, yaw: pick.0 as i64, roll: wish0.roll };
    let cmd1 = Command {
        movement: Vec3 { x: 0, y: pick.1 as i64, z: cmd.movement.z },
        ..cmd
    };
    let cmd2 = Command { movement: fix_movement_spec(cmd1, wish), ..cmd1 };
    (st1, cmd2)
}

/// The yaw of the movement intent itself, in millidegrees.
pub open spec fn atan2_of_movement(movement: Vec3) -> int {
    crate::trig::atan2_spec(movement.y as int, movement.x as int)
}

/// Run the airborne strafe assist on the live state and command.
pub fn strafe_assist(
    state: &mut MovementState,
    command: &mut Command,
    velocity: &Vec3,
    horizontal_speed: i64,
    side: i64,
)
    requires
        old(state).wf(),
        old(command).wf(),
        old(command).view_angle.bounded(ANGLE_MAX as int / 2),
        velocity.bounded(0x4000_0000),
        -MOVE_MAX <= horizontal_speed <= MOVE_MAX,
        side == 1 || side == -1,
    ensures
        *final(state) == strafe_spec(
            *old(state),
            *old(command),
            *velocity,
            horizontal_speed as int,
            side as int,
        ).0,
        *final(command) == strafe_spec(
            *old(state),
            *old(command),
            *velocity,
            horizontal_speed as int,
            side as int,
        ).1,
        final(state).wf(),
        final(command).wf(),
        final(command).view_angle == old(command).view_angle,
        final(state).was_attacking == old(state).was_attacking,
        final(state).was_jumping == old(state).was_jumping,
        final(state).last_command == old(state).last_command,
        final(state).fake_lag_cadence == old(state).fake_lag_cadence,
        final(command).attack == old(command).attack,
        final(command).duck == old(command).duck,
        final(command).jump == old(command).jump,
{
    proof {
        reveal(strafe_spec);
    }
    let magnitude = velocity.magnitude2d();
    let ideal = atan_ratio_milli(SLOW_SPEED, magnitude);
    let strafe_yaw = crate::trig::atan2_milli(command.movement.y, command.movement.x);
    let wish0 = Angle {
        pitch: command.view_angle.pitch,
        yaw: command.view_angle.yaw - strafe_yaw,
        roll: command.view_angle.roll,
    }.sanitize();
    let yaw_delta = wrap_milli(wish0.yaw - state.old_yaw);
    let abs_delta = abs64(yaw_delta);
    state.old_yaw = wish0.yaw;
    let vel_yaw = crate::angle::vector_yaw(velocity);
    let vel_delta = wrap_milli(wish0.yaw - vel_yaw);
    let retrack = 2 * atan_ratio_milli(RETRACK_SPEED, magnitude);

    let side_ideal: i64 = if side == 1 {
        ideal
    } else {
        -ideal
    };
    let side_speed: i64 = if side == 1 {
        horizontal_speed
    } else {
        -horizontal_speed
    };
    proof {
        assert(side_ideal == side as int * ideal as int && side_speed == horizontal_speed as int
            * side as int) by (nonlinear_arith)
            requires
                side == 1 || side == -1,
                side == 1 ==> side_ideal == ideal && side_speed == horizontal_speed,
                side == -1 ==> side_ideal == -ideal && side_speed == -horizontal_speed,
        ;
    }

    let (wish_yaw, mov_y): (i64, i64) = if abs_delta <= ideal || abs_delta >= 30_000 {
        if vel_delta <= retrack || magnitude <= SLOW_SPEED {
            if -retrack <= vel_delta || magnitude <= SLOW_SPEED {
                (wish0.yaw + side_ideal, side_speed)
            } else {
                (vel_yaw - retrack, horizontal_speed)
            }
        } else {
            (vel_yaw + retrack, -horizontal_speed)
        }
    } else if yaw_delta > 0 {
        (wish0.yaw, -horizontal_speed)
    } else {
        (wish0.yaw, horizontal_speed)
    };
    let wish = Angle { pitch: wish0.pitch, yaw: wish_yaw, roll: wish0.roll };
    command.movement = Vec3 { x: 0, y: mov_y, z: command.movement.z };
    fix_movement(command, wish);
}

/// Everything one pipeline invocation does, for a given jitter sample:
/// the new cross-tick state, the rewritten command, the transmission flag
/// handed back to the host, and the pose branch to populate (`None` when
/// the tick no-ops).
///
/// An unfilled command (`tick_count == 0`) or an observing local player
/// leaves everything untouched. Otherwise the stages run in order: edge
/// detection; strafe assistance when airborne under ordinary physics; the
/// fake-lag transmission decision; the desync transform under ordinary
/// physics, with the side parity drawn from the sequence number; the true
/// orientation restored on an attacking tick; fast duck; movement
/// correction against the engine view angle; a final sanitize when the
/// host is strict about angles; and the tick-regression guard, which
/// zeroes the transmitted orientation when the sequence number went
/// backwards.
#[verifier::opaque]
pub open spec fn tick_spec(
    st: MovementState,
    cmd: Command,
    snap: EntitySnapshot,
    cfg: AntiAim,
    h: int,
    engine_view: Angle,
    anti_untrusted: bool,
    send_in: bool,
    jitter: int,
) -> (MovementState, Command, bool, Option<PoseBranch>) {
    if cmd.tick_count == 0 || snap.observing {
        (st, cmd, send_in, None)
    } else {
        let side: int = if cmd.command as int % 2 != 0 {
            1
        } else {
            -1
        };
        let stage1 = edge_spec(st, cmd, snap.on_ground);
        let stage2 = if !snap.on_ground && !snap.passive_move_kind() {
            strafe_spec(stage1.0, stage1.1, snap.velocity, h, side)
        } else {
            stage1
        };
        let t = tail_spec(
            stage2.0,
            stage2.1,
            cmd.attack,
            cmd.command,
            snap.passive_move_kind(),
            cfg,
            engine_view,
            anti_untrusted,
            send_in,
            jitter,
        );
        (t.0, t.1, t.2, Some(t.3))
    }
}

/// The second half of a tick, after edge detection and strafe assistance:
/// the fake-lag transmission decision, the desync transform under ordinary
/// physics with side parity from the sequence number, the true orientation
/// restored on an attacking tick, fast duck, movement correction against
/// the engine view, the optional final sanitize, and the tick-regression
/// guard.
#[verifier::opaque]
pub open spec fn tail_spec(
    st: MovementState,
    cmd: Command,
    do_attack: bool,
    seq: i32,
    passive: bool,
    cfg: AntiAim,
    engine_view: Angle,
    anti_untrusted: bool,
    send_in: bool,
    jitter: int,
) -> (MovementState, Command, bool, PoseBranch) {
    let send1 = if st.fake_lag_cadence != 0 {
        transmit_spec(seq as int, st.fake_lag_cadence as int)
    } else {
        send_in
    };
    let cmd3 = if !passive {
        Command {
            view_angle: apply_spec(cfg, seq as int % 2 == 0, cmd.view_angle, jitter),
            ..cmd
        }
    } else {
        cmd
    };
    let cmd4 = if do_attack {
        Command { view_angle: engine_view, ..cmd3 }
    } else {
        cmd3
    };
    let cmd5 = Command { fast_duck: true, ..cmd4 };
    let cmd6 = Command { movement: fix_movement_spec(cmd5, engine_view), ..cmd5 };
    let cmd7 = if anti_untrusted {
        Command { view_angle: sanitize_spec(cmd6.view_angle), ..cmd6 }
    } else {
        cmd6
    };
    let cmd8 = if seq < st.last_command {
        Command { view_angle: Angle { pitch: 0, yaw: 0, roll: 0 }, ..cmd7 }
    } else {
        cmd7
    };
    let st3 = MovementState { last_command: seq, ..st };
    let branch = if send1 && st.fake_lag_cadence != 0 {
        PoseBranch::Transmitted
    } else {
        PoseBranch::True
    };
    (st3, cmd8, send1, branch)
}

/// Run the second half of a tick on the live state and command.
#[verifier::rlimit(100)]
fn run_tail(
    state: &mut MovementState,
    command: &mut Command,
    send_packet: &mut bool,
    do_attack: bool,
    seq: i32,
    passive: bool,
    config: &AntiAim,
    engine_view_angle: Angle,
    anti_untrusted: bool,
    jitter: i64,
) -> (branch: PoseBranch)
    requires
        old(command).wf(),
        old(command).view_angle.bounded(ANGLE_MAX as int / 2),
        config.wf(),
        engine_view_angle.bounded(ANGLE_MAX as int / 2),
        0 <= jitter <= JITTER_MAX,
    ensures
        (*final(state), *final(command), *final(send_packet), branch) == tail_spec(
            *old(state),
            *old(command),
            do_attack,
            seq,
            passive,
            *config,
            engine_view_angle,
            anti_untrusted,
            *old(send_packet),
            jitter as int,
        ),
        *final(state) == (MovementState { last_command: seq, ..*old(state) }),
        final(command).wf(),
        final(command).attack == old(command).attack,
        seq < old(state).last_command ==> final(command).view_angle == (Angle {
            pitch: 0,
            yaw: 0,
            roll: 0,
        }),
        branch is Transmitted <==> (*final(send_packet) && old(state).fake_lag_cadence != 0),
{
    let ghost st0 = *state;
    let ghost cmd0 = *command;
    let ghost send0 = *send_packet;

    if state.fake_lag_cadence != 0 {
        *send_packet = should_transmit(seq, state.fake_lag_cadence);
    }

    if !passive {
        let parity = rem_euclid64(seq as i64, 2);
        command.view_angle = config.apply_with_jitter(parity == 0, command.view_angle, jitter);
    }
    let ghost cmd3 = if !passive {
        Command {
            view_angle: apply_spec(*config, seq as int % 2 == 0, cmd0.view_angle, jitter as int),
            ..cmd0
        }
    } else {
        cmd0
    };
    proof {
        assert(*command == cmd3);
    }

    if do_attack {
        command.view_angle = engine_view_angle;
    }
    command.fast_duck = true;
    let ghost cmd5 = Command {
        fast_duck: true,
        ..if do_attack {
            Command { view_angle: engine_view_angle, ..cmd3 }
        } else {
            cmd3
        }
    };

    fix_movement(command, engine_view_angle);
    let ghost cmd6 = Command { movement: fix_movement_spec(cmd5, engine_view_angle), ..cmd5 };
    proof {
        assert(*command == cmd6);
    }

    if anti_untrusted {
        command.view_angle = command.view_angle.sanitize();
    }
    if seq < state.last_command {
        command.view_angle = Angle { pitch: 0, yaw: 0, roll: 0 };
    }
    state.last_command = seq;

    let branch = if *send_packet && state.fake_lag_cadence != 0 {
        PoseBranch::Transmitted
    } else {
        PoseBranch::True
    };
    proof {
        assert((*state, *command, *send_packet, branch) == tail_spec(
            st0,
            cmd0,
            do_attack,
            seq,
            passive,
            *config,
            engine_view_angle,
            anti_untrusted,
            send0,
            jitter as int,
        )) by {
            reveal(tail_spec);
        };
    }
    branch
}

/// When no jitter can enter the pipeline (transform disabled, jitter off,
/// or passive movement physics), the jitter sample plays no part.
proof fn lemma_tick_jitter_irrelevant(
    st: MovementState,
    cmd: Command,
    snap: EntitySnapshot,
    cfg: AntiAim,
    h: int,
    engine_view: Angle,
    anti_untrusted: bool,
    send_in: bool,
    jitter: int,
)
    requires
        !(cfg.enabled && cfg.yaw_jitter) || snap.passive_move_kind(),
    ensures
        tick_spec(st, cmd, snap, cfg, h, engine_view, anti_untrusted, send_in, jitter)
            == tick_spec(st, cmd, snap, cfg, h, engine_view, anti_untrusted, send_in, 0),
{
    reveal(tick_spec);
    reveal(tail_spec);
}

/// Run one tick of the pipeline: rewrite the command in place, advance
/// the cross-tick state, decide transmission, and name the pose branch to
/// populate.
///
/// The result equals `tick_spec` at the jitter sample that was drawn;
/// when no jitter enters (transform disabled, jitter off, or passive
/// movement physics) it equals `tick_spec` at jitter zero exactly.
#[verifier::rlimit(100)]
pub fn run_tick(
    state: &mut MovementState,
    command: &mut Command,
    snapshot: &EntitySnapshot,
    config: &AntiAim,
    horizontal_speed: i64,
    engine_view_angle: Angle,
    anti_untrusted: bool,
    send_packet: &mut bool,
) -> (branch: Option<PoseBranch>)
    requires
        old(state).wf(),
        old(command).wf(),
        old(command).view_angle.bounded(ANGLE_MAX as int / 2),
        snapshot.wf(),
        config.wf(),
        -MOVE_MAX <= horizontal_speed <= MOVE_MAX,
        engine_view_angle.bounded(ANGLE_MAX as int / 2),
    ensures
        exists|j: int|
            0 <= j <= JITTER_MAX && (*final(state), *final(command), *final(send_packet), branch)
                == tick_spec(
                *old(state),
                *old(command),
                *snapshot,
                *config,
                horizontal_speed as int,
                engine_view_angle,
                anti_untrusted,
                *old(send_packet),
                j,
            ),
        (!(config.enabled && config.yaw_jitter) || snapshot.passive_move_kind()) ==> (
        *final(state),
        *final(command),
        *final(send_packet),
        branch,
        ) == tick_spec(
            *old(state),
            *old(command),
            *snapshot,
            *config,
            horizontal_speed as int,
            engine_view_angle,
            anti_untrusted,
            *old(send_packet),
            0,
        ),
        old(command).tick_count == 0 || snapshot.observing ==> *final(state) == *old(state)
            && *final(command) == *old(command) && *final(send_packet) == *old(send_packet)
            && branch is None,
        !(old(command).tick_count == 0 || snapshot.observing) && old(command).command < old(
            state,
        ).last_command ==> final(command).view_angle == (Angle { pitch: 0, yaw: 0, roll: 0 }),
        !(old(command).tick_count == 0 || snapshot.observing) && old(command).attack && old(
            state,
        ).was_attacking ==> !final(command).attack && !final(state).was_attacking,
        !(old(command).tick_count == 0 || snapshot.observing) ==> final(state).last_command
            == old(command).command,
        final(state).wf(),
        final(command).wf(),
        branch is Some ==> ((branch == Some(PoseBranch::Transmitted)) <==> (*final(send_packet)
            && old(state).fake_lag_cadence != 0)),
{
    let ghost st0 = *state;
    let ghost cmd0 = *command;
    let ghost send0 = *send_packet;

    if command.tick_count == 0 || snapshot.observing {
        proof {
            assert((*state, *command, *send_packet, None::<PoseBranch>) == tick_spec(
                st0,
                cmd0,
                *snapshot,
                *config,
                horizontal_speed as int,
                engine_view_angle,
                anti_untrusted,
                send0,
                0,
            )) by {
                reveal(tick_spec);
            };
        }
        return None;
    }
    let do_attack = command.attack;
    let seq = command.command;
    let parity = rem_euclid64(seq as i64, 2);
    let side: i64 = if parity != 0 {
        1
    } else {
        -1
    };
    let passive = matches!(snapshot.move_kind, MoveKind::NoClip | MoveKind::Ladder);

    apply_edges(state, command, snapshot.on_ground);
    let ghost stage1 = edge_spec(st0, cmd0, snapshot.on_ground);

    if !snapshot.on_ground && !passive {
        strafe_assist(state, command, &snapshot.velocity, horizontal_speed, side);
    }
    let ghost stage2 = if !snapshot.on_ground && !snapshot.passive_move_kind() {
        strafe_spec(stage1.0, stage1.1, snapshot.velocity, horizontal_speed as int, side as int)
    } else {
        stage1
    };
    proof {
        assert(*state == stage2.0 && *command == stage2.1);
    }

    let jitter = crate::anti_aim::sample_jitter_milli();
    let branch = run_tail(
        state,
        command,
        send_packet,
        do_attack,
        seq,
        passive,
        config,
        engine_view_angle,
        anti_untrusted,
        jitter,
    );

    proof {
        assert((*state, *command, *send_packet, Some(branch)) == tick_spec(
            st0,
            cmd0,
            *snapshot,
            *config,
            horizontal_speed as int,
            engine_view_angle,
            anti_untrusted,
            send0,
            jitter as int,
        )) by {
            reveal(tick_spec);
        };
        if !(config.enabled && config.yaw_jitter) || snapshot.passive_move_kind() {
            lemma_tick_jitter_irrelevant(
                st0,
                cmd0,
                *snapshot,
                *config,
                horizontal_speed as int,
                engine_view_angle,
                anti_untrusted,
                send0,
                jitter as int,
            );
        }
    }
    Some(branch)
}

} // verus!
