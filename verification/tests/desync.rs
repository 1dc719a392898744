use elysium::angle::Angle;
use elysium::anti_aim::{AntiAim, Pitch};

fn angle(pitch: i64, yaw: i64, roll: i64) -> Angle {
    Angle { pitch, yaw, roll }
}

#[test]
fn disabled_transform_is_identity() {
    let cfg = AntiAim::new();
    let a = angle(12_345, -67_890, 777);
    assert_eq!(cfg.apply_with_jitter(true, a, 0), a);
    assert_eq!(cfg.apply_with_jitter(false, a, 15_000), a);
    assert_eq!(cfg.apply(true, a), a);
    assert_eq!(cfg.apply(false, a), a);
}

#[test]
fn pitch_up_forces_negative_limit() {
    let cfg = AntiAim { enabled: true, pitch: Pitch::Up, yaw_jitter: false, yaw_offset: 0, roll: false };
    for pitch in [-89_000i64, -10_000, 0, 45_000, 89_000] {
        let out = cfg.apply_with_jitter(true, angle(pitch, 0, 0), 0);
        assert_eq!(out.pitch, -89_000);
        let sampled = cfg.apply(false, angle(pitch, 0, 0));
        assert_eq!(sampled.pitch, -89_000);
    }
}

#[test]
fn pitch_down_forces_positive_limit() {
    let cfg = AntiAim { enabled: true, pitch: Pitch::Down, yaw_jitter: false, yaw_offset: 0, roll: false };
    let out = cfg.apply_with_jitter(false, angle(-5_000, 0, 0), 0);
    assert_eq!(out.pitch, 89_000);
}

#[test]
fn yaw_gains_side_signed_desync() {
    let cfg = AntiAim { enabled: true, pitch: Pitch::Default, yaw_jitter: false, yaw_offset: 0, roll: false };
    // side false reads as +1, side true as -1.
    let plus = cfg.apply_with_jitter(false, angle(0, 10_000, 0), 0);
    assert_eq!(plus.yaw, 68_000);
    let minus = cfg.apply_with_jitter(true, angle(0, 10_000, 0), 0);
    assert_eq!(minus.yaw, -48_000);
}

#[test]
fn yaw_offset_is_added_unconditionally() {
    let cfg = AntiAim { enabled: true, pitch: Pitch::Default, yaw_jitter: false, yaw_offset: 5_000, roll: false };
    let out = cfg.apply_with_jitter(false, angle(0, 0, 0), 0);
    assert_eq!(out.yaw, 63_000);
}

#[test]
fn jitter_replaces_bias_with_window() {
    let cfg = AntiAim { enabled: true, pitch: Pitch::Default, yaw_jitter: true, yaw_offset: 0, roll: false };
    // With a known sample the yaw is exact: desync - 15 + jitter.
    let out = cfg.apply_with_jitter(false, angle(0, 0, 0), 4_000);
    assert_eq!(out.yaw, 47_000);
    // With the sample drawn inside, the yaw lands somewhere in the window;
    // this fails if the sampler were to return anything outside [0, 15000].
    for _ in 0..50 {
        let sampled = cfg.apply(false, angle(0, 0, 0));
        assert!(sampled.yaw >= 43_000 && sampled.yaw <= 58_000, "yaw {}", sampled.yaw);
    }
}

#[test]
fn roll_forced_when_enabled() {
    let cfg = AntiAim { enabled: true, pitch: Pitch::Default, yaw_jitter: false, yaw_offset: 0, roll: true };
    let plus = cfg.apply_with_jitter(false, angle(0, 0, 123), 0);
    assert_eq!(plus.roll, 50_000);
    let minus = cfg.apply_with_jitter(true, angle(0, 0, 123), 0);
    assert_eq!(minus.roll, -50_000);
    let off = AntiAim { roll: false, ..cfg };
    assert_eq!(off.apply_with_jitter(false, angle(0, 0, 123), 0).roll, 123);
}

#[test]
fn pitch_mode_labels() {
    assert_eq!(Pitch::Default.as_str(), "Default");
    assert_eq!(Pitch::Up.as_str(), "Up");
    assert_eq!(Pitch::Down.as_str(), "Down");
}

#[test]
fn sanitize_clamps_and_wraps() {
    let a = angle(120_000, 190_000, 31_415);
    let s = a.sanitize();
    assert_eq!((s.pitch, s.yaw, s.roll), (89_000, -170_000, 31_415));
    let b = angle(-120_000, -190_000, 0);
    let t = b.sanitize();
    assert_eq!((t.pitch, t.yaw, t.roll), (-89_000, 170_000, 0));
}

#[test]
fn sanitize_is_idempotent_on_samples() {
    for a in [
        angle(0, 0, 0),
        angle(120_000, 190_000, 5),
        angle(-89_000, 180_000, -5),
        angle(89_001, -180_000, 0),
        angle(-1, 359_999, 0),
    ] {
        let once = a.sanitize();
        let twice = once.sanitize();
        assert_eq!(once, twice);
        assert!(once.pitch >= -89_000 && once.pitch <= 89_000);
        assert!(once.yaw > -180_000 && once.yaw <= 180_000);
    }
}
