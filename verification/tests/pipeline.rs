use elysium::angle::Angle;
use elysium::anti_aim::{AntiAim, Pitch};
use elysium::command::Command;
use elysium::movement::fix_movement;
use elysium::pipeline::{
    apply_edges, run_tick, should_transmit, strafe_assist, MovementState,
};
use elysium::pose::PoseBranch;
use elysium::snapshot::{EntitySnapshot, MoveKind};
use elysium::vector::Vec3;

fn base_command() -> Command {
    Command {
        tick_count: 1,
        command: 1,
        view_angle: Angle { pitch: 0, yaw: 0, roll: 0 },
        movement: Vec3 { x: 0, y: 0, z: 0 },
        attack: false,
        duck: false,
        jump: false,
        fast_duck: false,
    }
}

fn grounded_snapshot() -> EntitySnapshot {
    EntitySnapshot {
        velocity: Vec3 { x: 0, y: 0, z: 0 },
        on_ground: true,
        ducking: false,
        observing: false,
        move_kind: MoveKind::Normal,
    }
}

#[test]
fn corrector_noop_when_directions_agree() {
    let mut cmd = base_command();
    cmd.movement = Vec3 { x: 102_400, y: 51_200, z: 7 };
    let before = cmd.movement;
    let wish = cmd.view_angle;
    // The wish orientation equals the command's own orientation, so the
    // intent already points the right way.
    fix_movement(&mut cmd, wish);
    assert_eq!(cmd.movement, before);
}

#[test]
fn corrector_rebases_movement_between_orientations() {
    let mut cmd = base_command();
    cmd.movement = Vec3 { x: 102_400, y: 0, z: 0 };
    // The command reports yaw 0 but the intent was expressed at yaw 90:
    // pure forward becomes pure (negative) side through the rotated basis.
    fix_movement(&mut cmd, Angle { pitch: 0, yaw: 90_000, roll: 0 });
    assert_eq!((cmd.movement.x, cmd.movement.y), (0, -102_400));
    // The vertical scalar is never touched.
    assert_eq!(cmd.movement.z, 0);
}

#[test]
fn corrector_output_is_finite_for_all_samples() {
    // A spread of orientation pairs, including ones straight up and down
    // where the horizontal basis degenerates: the corrector must always
    // hand back in-range scalars and never fall over.
    let yaws = [0i64, 45_000, 90_000, 135_000, 180_000, -90_000];
    let pitches = [0i64, 89_000, -89_000];
    for &wy in &yaws {
        for &cy in &yaws {
            for &p in &pitches {
                let mut cmd = base_command();
                cmd.view_angle = Angle { pitch: p, yaw: cy, roll: 0 };
                cmd.movement = Vec3 { x: 460_800, y: -230_400, z: 0 };
                fix_movement(&mut cmd, Angle { pitch: p, yaw: wy, roll: 0 });
                assert!(cmd.movement.x.abs() <= 0x8_0000_0000);
                assert!(cmd.movement.y.abs() <= 0x8_0000_0000);
            }
        }
    }
}

#[test]
fn attack_edge_clears_repeated_fire() {
    let mut state = MovementState::new();
    state.was_attacking = true;
    let mut cmd = base_command();
    cmd.attack = true;
    apply_edges(&mut state, &mut cmd, true);
    assert!(!cmd.attack);
    assert!(!state.was_attacking);
}

#[test]
fn fresh_attack_is_latched_not_cleared() {
    let mut state = MovementState::new();
    let mut cmd = base_command();
    cmd.attack = true;
    apply_edges(&mut state, &mut cmd, true);
    assert!(cmd.attack);
    assert!(state.was_attacking);
}

#[test]
fn jump_suppresses_duck_on_ground_and_jump_in_air() {
    let mut state = MovementState::new();
    let mut cmd = base_command();
    cmd.jump = true;
    cmd.duck = true;
    apply_edges(&mut state, &mut cmd, true);
    assert!(cmd.jump && !cmd.duck);

    let mut state2 = MovementState::new();
    let mut cmd2 = base_command();
    cmd2.jump = true;
    cmd2.duck = true;
    apply_edges(&mut state2, &mut cmd2, false);
    assert!(!cmd2.jump && cmd2.duck);
}

#[test]
fn tick_regression_zeroes_view_angle() {
    let mut state = MovementState::new();
    state.last_command = 10;
    let mut cmd = base_command();
    cmd.command = 5;
    cmd.view_angle = Angle { pitch: 10_000, yaw: 20_000, roll: 0 };
    let mut send = true;
    let branch = run_tick(
        &mut state,
        &mut cmd,
        &grounded_snapshot(),
        &AntiAim::new(),
        460_800,
        Angle { pitch: 0, yaw: 0, roll: 0 },
        false,
        &mut send,
    );
    assert_eq!(cmd.view_angle, Angle { pitch: 0, yaw: 0, roll: 0 });
    assert_eq!(state.last_command, 5);
    assert!(matches!(branch, Some(PoseBranch::True)));
}

#[test]
fn unfilled_command_is_left_alone() {
    let mut state = MovementState::new();
    state.was_attacking = true;
    let mut cmd = base_command();
    cmd.tick_count = 0;
    cmd.attack = true;
    let before_cmd = cmd;
    let before_state = state;
    let mut send = true;
    let branch = run_tick(
        &mut state,
        &mut cmd,
        &grounded_snapshot(),
        &AntiAim::new(),
        460_800,
        Angle { pitch: 0, yaw: 0, roll: 0 },
        true,
        &mut send,
    );
    assert!(branch.is_none());
    assert_eq!(cmd, before_cmd);
    assert_eq!(state, before_state);
    assert!(send);
}

#[test]
fn observer_tick_is_left_alone() {
    let mut state = MovementState::new();
    let mut cmd = base_command();
    let before_cmd = cmd;
    let mut snapshot = grounded_snapshot();
    snapshot.observing = true;
    let mut send = false;
    let branch = run_tick(
        &mut state,
        &mut cmd,
        &snapshot,
        &AntiAim::new(),
        460_800,
        Angle { pitch: 0, yaw: 0, roll: 0 },
        true,
        &mut send,
    );
    assert!(branch.is_none());
    assert_eq!(cmd, before_cmd);
    assert!(!send);
}

#[test]
fn grounded_desync_scenario() {
    // On the ground with the transform enabled, pitch mode Down and an odd
    // sequence number (side parity +1): the transmitted pitch is forced all
    // the way down and the yaw gains the +58 degree bias.
    let mut state = MovementState::new();
    let mut cmd = base_command();
    cmd.command = 3;
    cmd.view_angle = Angle { pitch: 0, yaw: 10_000, roll: 0 };
    let cfg = AntiAim {
        enabled: true,
        pitch: Pitch::Down,
        yaw_jitter: false,
        yaw_offset: 0,
        roll: false,
    };
    let mut send = true;
    let branch = run_tick(
        &mut state,
        &mut cmd,
        &grounded_snapshot(),
        &cfg,
        460_800,
        Angle { pitch: 0, yaw: 0, roll: 0 },
        false,
        &mut send,
    );
    assert_eq!(cmd.view_angle.pitch, 89_000);
    assert_eq!(cmd.view_angle.yaw, 68_000);
    assert!(send);
    assert!(matches!(branch, Some(PoseBranch::True)));
    assert_eq!(state.last_command, 3);
}

#[test]
fn airborne_strafe_scenario() {
    // Airborne at 200 units per second, desired yaw 10 degrees past the
    // remembered yaw: the ideal strafe angle atan(15 / 200) is about 4.3
    // degrees, so 10 degrees is past ideal but under the 30 degree window,
    // and the minimal correction sets the side scalar to the signed
    // horizontal-speed tunable.
    let mut state = MovementState::new();
    state.old_yaw = 0;
    let mut cmd = base_command();
    cmd.command = 1;  // odd: side parity +1
    cmd.view_angle = Angle { pitch: 0, yaw: 10_000, roll: 0 };
    cmd.movement = Vec3 { x: 0, y: 0, z: 0 };
    let velocity = Vec3 { x: 204_800, y: 0, z: 0 };
    strafe_assist(&mut state, &mut cmd, &velocity, 460_800, 1);
    // A positive yaw delta takes the negative-speed branch.
    assert_eq!(cmd.movement.y, -460_800);
    assert_eq!(cmd.movement.x, 0);
    // The new desired yaw is remembered.
    assert_eq!(state.old_yaw, 10_000);
}

#[test]
fn airborne_snap_to_ideal_when_delta_small() {
    // The same setup with the desired yaw only 2 degrees out: the delta is
    // within the ideal strafe angle, velocity is dead ahead, so the snap
    // branch biases the yaw by the ideal angle and sets the side scalar to
    // the side-signed speed.
    let mut state = MovementState::new();
    state.old_yaw = 0;
    let mut cmd = base_command();
    cmd.view_angle = Angle { pitch: 0, yaw: 2_000, roll: 0 };
    let velocity = Vec3 { x: 204_800, y: 0, z: 0 };
    strafe_assist(&mut state, &mut cmd, &velocity, 460_800, -1);
    // The chosen yaw is 2 - 4.458 degrees, and the corrector rebases the
    // side-signed speed through the command's own orientation.
    assert_eq!(cmd.movement.x, 35_955);
    assert_eq!(cmd.movement.y, -459_535);
    assert_eq!(state.old_yaw, 2_000);
}

#[test]
fn fake_lag_cadence_pattern() {
    // With cadence 4, exactly one in every four consecutive sequence
    // numbers is transmitted.
    for window in 0..8i32 {
        let sent = (0..4)
            .filter(|k| should_transmit(window + k, 4))
            .count();
        assert_eq!(sent, 1, "window at {}", window);
    }
    assert!(should_transmit(0, 4));
    assert!(!should_transmit(1, 4));
    assert!(!should_transmit(3, 4));
    assert!(should_transmit(8, 4));
    // Cadence zero transmits everything.
    assert!(should_transmit(7, 0));
}

#[test]
fn fake_lag_picks_transmitted_branch_on_cadence_hit() {
    let cfg = AntiAim::new();
    let engine = Angle { pitch: 0, yaw: 0, roll: 0 };

    let mut state = MovementState::new();
    state.fake_lag_cadence = 4;
    let mut cmd = base_command();
    cmd.command = 8;
    let mut send = false;
    let branch = run_tick(
        &mut state, &mut cmd, &grounded_snapshot(), &cfg, 460_800, engine, false, &mut send,
    );
    assert!(send);
    assert!(matches!(branch, Some(PoseBranch::Transmitted)));

    let mut state2 = MovementState::new();
    state2.fake_lag_cadence = 4;
    state2.last_command = 8;
    let mut cmd2 = base_command();
    cmd2.command = 9;
    let mut send2 = true;
    let branch2 = run_tick(
        &mut state2, &mut cmd2, &grounded_snapshot(), &cfg, 460_800, engine, false, &mut send2,
    );
    assert!(!send2);
    assert!(matches!(branch2, Some(PoseBranch::True)));
}

#[test]
fn attacking_tick_restores_engine_view() {
    let mut state = MovementState::new();
    let mut cmd = base_command();
    cmd.attack = true;
    let cfg = AntiAim {
        enabled: true,
        pitch: Pitch::Down,
        yaw_jitter: false,
        yaw_offset: 0,
        roll: false,
    };
    let engine = Angle { pitch: 1_000, yaw: 2_000, roll: 0 };
    let mut send = true;
    run_tick(&mut state, &mut cmd, &grounded_snapshot(), &cfg, 460_800, engine, false, &mut send);
    // Even with the transform on, the tick that fires sends the true view.
    assert_eq!(cmd.view_angle, engine);
    assert!(cmd.fast_duck);
}

#[test]
fn strict_host_gets_sanitized_view() {
    let mut state = MovementState::new();
    let mut cmd = base_command();
    cmd.view_angle = Angle { pitch: 0, yaw: 170_000, roll: 0 };
    let cfg = AntiAim {
        enabled: true,
        pitch: Pitch::Default,
        yaw_jitter: false,
        yaw_offset: 0,
        roll: false,
    };
    let mut send = true;
    run_tick(
        &mut state,
        &mut cmd,
        &grounded_snapshot(),
        &cfg,
        460_800,
        Angle { pitch: 0, yaw: 0, roll: 0 },
        true,
        &mut send,
    );
    // 170 + 58 wraps around to -132 once sanitized.
    assert_eq!(cmd.view_angle.yaw, -132_000);
    assert!(cmd.view_angle.pitch >= -89_000 && cmd.view_angle.pitch <= 89_000);
}

#[test]
fn passive_move_kinds_skip_the_transform() {
    for kind in [MoveKind::NoClip, MoveKind::Ladder] {
        let mut state = MovementState::new();
        let mut cmd = base_command();
        cmd.view_angle = Angle { pitch: 5_000, yaw: 6_000, roll: 0 };
        let mut snapshot = grounded_snapshot();
        snapshot.move_kind = kind;
        let cfg = AntiAim {
            enabled: true,
            pitch: Pitch::Down,
            yaw_jitter: false,
            yaw_offset: 0,
            roll: false,
        };
        let mut send = true;
        run_tick(
            &mut state,
            &mut cmd,
            &snapshot,
            &cfg,
            460_800,
            Angle { pitch: 5_000, yaw: 6_000, roll: 0 },
            false,
            &mut send,
        );
        assert_eq!(cmd.view_angle, Angle { pitch: 5_000, yaw: 6_000, roll: 0 });
    }
}
