use zphy::bodies::{Collider, Velocity};
use zphy::detect::{aabb_player_vs_collider, get_collision_info, get_overlap};
use zphy::quat::Quat;
use zphy::vec3::Vec3;

fn still() -> Velocity {
    Velocity { linear: Vec3::zero(), angular: Vec3::zero() }
}

fn unrotated(center: Vec3, half_extents: Vec3) -> Collider {
    Collider::new(center, half_extents, Quat::identity())
}

#[test]
fn overlap_helper_clamps_at_zero() {
    assert_eq!(get_overlap(0, 10, 5, 20), 5);
    assert_eq!(get_overlap(0, 10, 10, 20), 0);
    assert_eq!(get_overlap(0, 10, 30, 40), 0);
    assert_eq!(get_overlap(-10, 10, -5, 5), 10);
}

#[test]
fn separated_cubes_report_nothing() {
    // Two unit cubes at the origin and three units along X: a one-unit gap.
    let floor = unrotated(Vec3::new(3000, 0, 0), Vec3::new(1000, 1000, 1000));
    let r = aabb_player_vs_collider(
        Vec3::zero(),
        Vec3::new(1000, 1000, 1000),
        Vec3::zero(),
        &floor,
        &still(),
    );
    assert!(r.is_none());
}

#[test]
fn touching_cubes_report_zero_depth_contact() {
    // Centers exactly two units apart: the slab test's strict comparisons
    // keep the pair, and the smallest overlap is exactly zero.
    let other = unrotated(Vec3::new(2000, 0, 0), Vec3::new(1000, 1000, 1000));
    let r = aabb_player_vs_collider(
        Vec3::zero(),
        Vec3::new(1000, 1000, 1000),
        Vec3::zero(),
        &other,
        &still(),
    )
    .expect("touching boxes stay on the contact path");
    assert_eq!(r.penetration_depth, 0);
    assert_eq!((r.normal.x, r.normal.y, r.normal.z), (-1000, 0, 0));
}

#[test]
fn separation_on_one_axis_is_enough() {
    // Overlapping on X and Z but a gap on Y.
    let other = unrotated(Vec3::new(0, 5000, 0), Vec3::new(1000, 1000, 1000));
    let r = aabb_player_vs_collider(
        Vec3::zero(),
        Vec3::new(1000, 1000, 1000),
        Vec3::zero(),
        &other,
        &still(),
    );
    assert!(r.is_none());
}

#[test]
fn player_over_floor_reports_up_normal() {
    // Player box half-size (1, 5, 1) at the origin; a wide, thin floor
    // whose top surface cuts 0.6 units into the player's feet.
    let floor = unrotated(Vec3::new(0, -4900, 0), Vec3::new(50_000, 500, 50_000));
    let r = aabb_player_vs_collider(
        Vec3::zero(),
        Vec3::new(1000, 5000, 1000),
        Vec3::zero(),
        &floor,
        &still(),
    )
    .expect("the floor cuts into the player");
    assert_eq!((r.normal.x, r.normal.y, r.normal.z), (0, 1000, 0));
    assert_eq!(r.penetration_depth, 600);
    assert_eq!(r.contact_point_a, Vec3::zero());
    assert_eq!(r.contact_point_b, Vec3::new(0, -4900, 0));
}

#[test]
fn slab_contact_keeps_velocity_snapshots() {
    let floor = unrotated(Vec3::new(0, -4900, 0), Vec3::new(50_000, 500, 50_000));
    let floor_vel = Velocity { linear: Vec3::new(7, 8, 9), angular: Vec3::zero() };
    let r = aabb_player_vs_collider(
        Vec3::zero(),
        Vec3::new(1000, 5000, 1000),
        Vec3::new(1, 2, 3),
        &floor,
        &floor_vel,
    )
    .unwrap();
    assert_eq!(r.a_vel.linear, Vec3::new(1, 2, 3));
    assert_eq!(r.a_vel.angular, Vec3::zero());
    assert_eq!(r.b_vel.linear, Vec3::new(7, 8, 9));
}

#[test]
fn sat_reports_least_overlap_axis() {
    // Unit cubes centered 1.5 units apart along X: X overlap 0.5, Y and Z
    // overlap 2, so the first axis wins with depth 0.5.
    let a = unrotated(Vec3::zero(), Vec3::new(1000, 1000, 1000));
    let b = unrotated(Vec3::new(1500, 0, 0), Vec3::new(1000, 1000, 1000));
    let r = get_collision_info(&a, &still(), &b, &still()).expect("cubes overlap");
    assert_eq!((r.normal.x, r.normal.y, r.normal.z), (1000, 0, 0));
    assert_eq!(r.penetration_depth, 500);
    assert_eq!(r.contact_point_a, Vec3::zero());
    assert_eq!(r.contact_point_b, Vec3::new(1500, 0, 0));
}

#[test]
fn sat_treats_touching_as_separated() {
    // Centers exactly two units apart: zero overlap on X is a separation
    // for the separating-axis test, unlike the slab test.
    let a = unrotated(Vec3::zero(), Vec3::new(1000, 1000, 1000));
    let b = unrotated(Vec3::new(2000, 0, 0), Vec3::new(1000, 1000, 1000));
    assert!(get_collision_info(&a, &still(), &b, &still()).is_none());
}

#[test]
fn sat_separates_distant_cubes() {
    let a = unrotated(Vec3::zero(), Vec3::new(1000, 1000, 1000));
    let b = unrotated(Vec3::new(3000, 0, 0), Vec3::new(1000, 1000, 1000));
    assert!(get_collision_info(&a, &still(), &b, &still()).is_none());
}

#[test]
fn sat_sees_rotated_extent() {
    // A cube rotated an eighth turn about Z reaches sqrt(2) along X, so it
    // overlaps a cube whose near face sits 1.2 units away, where the
    // unrotated cube would not.
    let tilted = Collider::new(
        Vec3::zero(),
        Vec3::new(1000, 1000, 1000),
        Quat::new(0, 0, 383, 924),
    );
    let b = unrotated(Vec3::new(2200, 0, 0), Vec3::new(1000, 1000, 1000));
    let r = get_collision_info(&tilted, &still(), &b, &still());
    assert!(r.is_some());
    let plain = unrotated(Vec3::zero(), Vec3::new(1000, 1000, 1000));
    assert!(get_collision_info(&plain, &still(), &b, &still()).is_none());
}
