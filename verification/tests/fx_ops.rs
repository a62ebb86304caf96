use zphy::angles::{atan2_fx, asin_fx, HALF_PI_FX, QUARTER_PI_FX};
use zphy::fx::{fdiv, fmul, iabs, imax, imin, isqrt, SCALE};
use zphy::quat::Quat;
use zphy::vec3::Vec3;

#[test]
fn scale_is_one_thousand() {
    assert_eq!(SCALE, 1000);
}

#[test]
fn fmul_truncates_toward_zero() {
    assert_eq!(fmul(3, 500), 1);
    assert_eq!(fmul(-3, 500), -1);
    assert_eq!(fmul(1000, 700), 700);
    assert_eq!(fmul(-1000, 700), -700);
    assert_eq!(fmul(0, 123456), 0);
}

#[test]
fn fdiv_scales_up_before_dividing() {
    assert_eq!(fdiv(500, 1000), 500);
    assert_eq!(fdiv(1, 3), 333);
    assert_eq!(fdiv(-1, 3), -333);
}

#[test]
fn isqrt_exact_values() {
    assert_eq!(isqrt(0), 0);
    assert_eq!(isqrt(1), 1);
    assert_eq!(isqrt(3), 1);
    assert_eq!(isqrt(4), 2);
    assert_eq!(isqrt(1_000_000), 1000);
    assert_eq!(isqrt(2_000_000), 1414);
    assert_eq!(isqrt(u64::MAX), 4_294_967_295);
}

#[test]
fn min_max_abs() {
    assert_eq!(imin(-5, 3), -5);
    assert_eq!(imax(-5, 3), 3);
    assert_eq!(iabs(-5), 5);
    assert_eq!(iabs(5), 5);
}

#[test]
fn dot_and_cross_are_fixed_point() {
    let a = Vec3::new(1000, 0, 0);
    let b = Vec3::new(0, 1000, 0);
    assert_eq!(a.dot(b), 0);
    assert_eq!(a.dot(a), 1000);
    let c = a.cross(b);
    assert_eq!((c.x, c.y, c.z), (0, 0, 1000));
}

#[test]
fn length_and_normalized() {
    let v = Vec3::new(3000, 4000, 0);
    assert_eq!(v.length(), 5000);
    let n = v.normalized();
    assert_eq!((n.x, n.y, n.z), (600, 800, 0));
}

#[test]
fn rotate_by_identity_is_exact() {
    let q = Quat::identity();
    let v = Vec3::new(123, -456, 789);
    let r = q.rotate(v);
    assert_eq!((r.x, r.y, r.z), (123, -456, 789));
}

#[test]
fn quarter_turn_about_z_swaps_x_into_y() {
    // sin(45deg) ~= 0.707, cos(45deg) ~= 0.707: a 90-degree turn about Z.
    let q = Quat::new(0, 0, 707, 707);
    let r = q.rotate(Vec3::new(1000, 0, 0));
    // 0.707^2 rounding keeps the result within a couple of steps of (0, 1, 0).
    assert!(r.x.abs() <= 5, "x was {}", r.x);
    assert!((r.y - 1000).abs() <= 5, "y was {}", r.y);
    assert_eq!(r.z, 0);
}

#[test]
fn atan2_quadrants() {
    assert_eq!(atan2_fx(0, 0), 0);
    assert_eq!(atan2_fx(0, 1000), 0);
    assert_eq!(atan2_fx(1000, 1000), QUARTER_PI_FX);
    assert_eq!(atan2_fx(1000, 0), HALF_PI_FX);
    assert_eq!(atan2_fx(-1000, 0), -HALF_PI_FX);
}

#[test]
fn asin_endpoints() {
    assert_eq!(asin_fx(0), 0);
    assert_eq!(asin_fx(1000), HALF_PI_FX);
    assert_eq!(asin_fx(-1000), -HALF_PI_FX);
}
