use elysium::math::{abs64, clamp64, div64, isqrt64, rem_euclid64};
use elysium::trig::{atan2_milli, atan_ratio_milli, cos_milli, sin_milli, wrap_milli};
use elysium::vector::Vec3;

#[test]
fn division_truncates_toward_zero() {
    assert_eq!(div64(7, 2), 3);
    assert_eq!(div64(-7, 2), -3);
    assert_eq!(div64(7, -2), -3);
    assert_eq!(div64(-7, -2), 3);
}

#[test]
fn euclidean_remainder_is_non_negative() {
    assert_eq!(rem_euclid64(7, 3), 1);
    assert_eq!(rem_euclid64(-7, 3), 2);
    assert_eq!(rem_euclid64(-9, 3), 0);
    assert_eq!(rem_euclid64(0, 360_000), 0);
}

#[test]
fn integer_square_roots() {
    assert_eq!(isqrt64(0), 0);
    assert_eq!(isqrt64(24), 4);
    assert_eq!(isqrt64(25), 5);
    assert_eq!(isqrt64(26_214_400), 5120);
    assert_eq!(isqrt64(u64::MAX), 0xFFFF_FFFF);
}

#[test]
fn absolute_value_and_clamp() {
    assert_eq!(abs64(-5), 5);
    assert_eq!(abs64(5), 5);
    assert_eq!(clamp64(120_000, -89_000, 89_000), 89_000);
    assert_eq!(clamp64(-120_000, -89_000, 89_000), -89_000);
    assert_eq!(clamp64(42, -89_000, 89_000), 42);
}

#[test]
fn wrap_into_half_turn() {
    assert_eq!(wrap_milli(0), 0);
    assert_eq!(wrap_milli(190_000), -170_000);
    assert_eq!(wrap_milli(-190_000), 170_000);
    assert_eq!(wrap_milli(180_000), 180_000);
    assert_eq!(wrap_milli(-180_000), 180_000);
    assert_eq!(wrap_milli(450_000), 90_000);
}

#[test]
fn sine_exact_points() {
    assert_eq!(sin_milli(0), 0);
    assert_eq!(sin_milli(30_000), 512);
    assert_eq!(sin_milli(90_000), 1024);
    assert_eq!(sin_milli(150_000), 512);
    assert_eq!(sin_milli(-30_000), -512);
    assert_eq!(sin_milli(-90_000), -1024);
    assert_eq!(sin_milli(360_000), 0);
}

#[test]
fn cosine_exact_points() {
    assert_eq!(cos_milli(0), 1024);
    assert_eq!(cos_milli(60_000), 512);
    assert_eq!(cos_milli(90_000), 0);
    assert_eq!(cos_milli(180_000), -1024);
    assert_eq!(cos_milli(-60_000), 512);
}

#[test]
fn arctangent_ratio() {
    // atan(15 / 200) is about 4.3 degrees.
    assert_eq!(atan_ratio_milli(15_360, 204_800), 4_458);
    // A vertical slope reads as a quarter turn.
    assert_eq!(atan_ratio_milli(15_360, 0), 90_000);
    assert_eq!(atan_ratio_milli(0, 204_800), 0);
    assert_eq!(atan_ratio_milli(204_800, 204_800), 45_000);
}

#[test]
fn arctangent_quadrants() {
    assert_eq!(atan2_milli(1, 1), 45_000);
    assert_eq!(atan2_milli(1, 2), 26_410);
    assert_eq!(atan2_milli(0, 5), 0);
    assert_eq!(atan2_milli(5, 0), 90_000);
    assert_eq!(atan2_milli(-5, 0), -90_000);
    assert_eq!(atan2_milli(0, -5), 180_000);
    assert_eq!(atan2_milli(-3, -3), -135_000);
    assert_eq!(atan2_milli(0, 0), 0);
}

#[test]
fn vector_magnitudes() {
    let v = Vec3 { x: 3072, y: 4096, z: 0 };
    assert_eq!(v.magnitude2d(), 5120);
    assert_eq!(v.magnitude(), 5120);
    let w = Vec3 { x: 3072, y: 4096, z: 999 };
    assert_eq!(w.magnitude2d(), 5120);
}

#[test]
fn vector_normalization() {
    let v = Vec3 { x: 2048, y: 0, z: 777 };
    let n = v.normalized2d();
    assert_eq!((n.x, n.y, n.z), (1024, 0, 0));
    let zero = Vec3 { x: 0, y: 0, z: 777 };
    let nz = zero.normalized2d();
    assert_eq!((nz.x, nz.y, nz.z), (0, 0, 0));
}

#[test]
fn intent_direction_through_basis() {
    let movement = Vec3 { x: 102_400, y: 0, z: 0 };
    let forward = Vec3 { x: 1024, y: 0, z: 0 };
    let right = Vec3 { x: 0, y: -1024, z: 0 };
    let d = movement.dir(forward, right);
    assert_eq!((d.x, d.y, d.z), (102_400, 0, 0));
    let movement2 = Vec3 { x: 0, y: 51_200, z: 0 };
    let d2 = movement2.dir(forward, right);
    assert_eq!((d2.x, d2.y, d2.z), (0, -51_200, 0));
}
