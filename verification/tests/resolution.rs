use zphy::bodies::{
    ContactInfo, Damping, RigidbodyComponent, RigidbodyType, Transform, Velocity,
};
use zphy::bodies::Collider;
use zphy::player::PlayerPositioning;
use zphy::quat::Quat;
use zphy::resolve::{resolve_object_collisions, resolve_player};
use zphy::vec3::Vec3;

fn still() -> Velocity {
    Velocity { linear: Vec3::zero(), angular: Vec3::zero() }
}

fn body(center: Vec3, inverse_mass: i64, rbt: RigidbodyType) -> RigidbodyComponent {
    RigidbodyComponent {
        collider: Collider::new(center, Vec3::new(1000, 1000, 1000), Quat::identity()),
        velocity: still(),
        inverse_mass,
        friction: 0,
        restitution: 0,
        damping: Damping { linear: 0 },
        rbt,
    }
}

fn contact(normal: Vec3, depth: i64, a_vel: Velocity, b_vel: Velocity) -> ContactInfo {
    ContactInfo {
        normal,
        penetration_depth: depth,
        contact_point_a: Vec3::zero(),
        contact_point_b: Vec3::zero(),
        a_vel,
        b_vel,
    }
}

#[test]
fn static_pair_resolution_is_a_noop() {
    let mut a = body(Vec3::zero(), 1000, RigidbodyType::Static);
    let mut b = body(Vec3::new(1500, 0, 0), 1000, RigidbodyType::Static);
    let mut ta = Transform { translation: Vec3::zero() };
    let mut tb = Transform { translation: Vec3::new(1500, 0, 0) };
    let a0 = a;
    let b0 = b;
    let ci = contact(Vec3::new(1000, 0, 0), 500, still(), still());
    resolve_object_collisions(&mut a, &mut ta, &mut b, &mut tb, &ci);
    assert_eq!(a, a0);
    assert_eq!(b, b0);
    assert_eq!(ta.translation, Vec3::zero());
    assert_eq!(tb.translation, Vec3::new(1500, 0, 0));
}

#[test]
fn zero_total_inverse_mass_is_a_noop() {
    let mut a = body(Vec3::zero(), 0, RigidbodyType::Dynamic);
    let mut b = body(Vec3::new(1500, 0, 0), 0, RigidbodyType::Dynamic);
    let mut ta = Transform { translation: Vec3::zero() };
    let mut tb = Transform { translation: Vec3::new(1500, 0, 0) };
    let a0 = a;
    let ci = contact(Vec3::new(1000, 0, 0), 500, still(), still());
    resolve_object_collisions(&mut a, &mut ta, &mut b, &mut tb, &ci);
    assert_eq!(a, a0);
    assert_eq!(ta.translation, Vec3::zero());
}

#[test]
fn dynamic_body_takes_position_correction_and_spin() {
    // Unit inverse mass, no friction, restitution, or damping, at rest: the
    // whole correction lands on the dynamic body, and aligning its rotated
    // up axis (0, 1, 0) onto the X normal yields an exact spin about Z.
    let mut a = body(Vec3::zero(), 1000, RigidbodyType::Dynamic);
    let mut b = body(Vec3::new(1500, 0, 0), 0, RigidbodyType::Static);
    let mut ta = Transform { translation: Vec3::zero() };
    let mut tb = Transform { translation: Vec3::new(1500, 0, 0) };
    let b0 = b;
    let ci = contact(Vec3::new(1000, 0, 0), 500, still(), still());
    resolve_object_collisions(&mut a, &mut ta, &mut b, &mut tb, &ci);
    // depth / m = 0.5; share = 0.5 * inverse mass 1.0.
    assert_eq!(a.collider.center, Vec3::new(500, 0, 0));
    assert_eq!(ta.translation, Vec3::new(500, 0, 0));
    assert_eq!(a.velocity.linear, Vec3::zero());
    // The halfway rotation from (0, 1, 0) to (1, 0, 0) has Euler angles
    // (0, 0, -1569) in fixed-point radians; scaled by inverse mass 1.0 and
    // the speed floor 6.5 that is a spin of -10198 steps about Z.
    assert_eq!(a.velocity.angular, Vec3::new(0, 0, -10198));
    // The static body and its transform never move.
    assert_eq!(b, b0);
    assert_eq!(tb.translation, Vec3::new(1500, 0, 0));
}

#[test]
fn linear_velocity_formula_is_exact() {
    let mut a = body(Vec3::zero(), 1000, RigidbodyType::Dynamic);
    a.friction = 100;
    a.restitution = 500;
    a.damping = Damping { linear: 200 };
    a.velocity.linear = Vec3::new(1000, 0, 0);
    a.velocity.angular = Vec3::new(11, 22, 33);
    let mut b = body(Vec3::new(0, -2000, 0), 0, RigidbodyType::Static);
    let mut ta = Transform { translation: Vec3::zero() };
    let mut tb = Transform { translation: Vec3::new(0, -2000, 0) };
    let ci = contact(
        Vec3::new(0, 1000, 0),
        1000,
        Velocity { linear: Vec3::new(1000, 0, 0), angular: Vec3::zero() },
        still(),
    );
    resolve_object_collisions(&mut a, &mut ta, &mut b, &mut tb, &ci);
    // center moves by the full correction (0, 1, 0).
    assert_eq!(a.collider.center, Vec3::new(0, 1000, 0));
    // old * (1 - 0.1) = (0.9, 0, 0); restitution term:
    // 0.5 * ((0,1,0) + (1,0,0)) * (1 - 0.2) = (0.4, 0.4, 0); b at rest.
    assert_eq!(a.velocity.linear, Vec3::new(1300, 400, 0));
    // the aligning rotation is the identity here, so the only effect on
    // angular velocity is the reset.
    assert_eq!(a.velocity.angular, Vec3::zero());
}

#[test]
fn player_contact_latches_grounded_and_clamps_velocity() {
    let mut player = PlayerPositioning::new(Vec3::zero(), Quat::identity());
    player.set_vel(Vec3::new(250, -300, 0));
    let mut trans = Transform { translation: Vec3::zero() };
    let floor = body(Vec3::new(0, -4900, 0), 0, RigidbodyType::Static);
    let ci = contact(
        Vec3::new(0, 1000, 0),
        600,
        Velocity { linear: player.get_vel(), angular: Vec3::zero() },
        still(),
    );
    let _ = resolve_player(&mut player, &mut trans, floor, ci);
    assert!(player.is_grounded());
    // full push-out along the normal.
    assert_eq!(trans.translation, Vec3::new(0, 600, 0));
    // the downward component is removed exactly; the tangent one stays.
    assert_eq!(player.get_vel(), Vec3::new(250, 0, 0));
}

#[test]
fn grounded_stays_latched_until_cleared() {
    let mut player = PlayerPositioning::new(Vec3::zero(), Quat::identity());
    let mut trans = Transform { translation: Vec3::zero() };
    let floor = body(Vec3::new(0, -4900, 0), 0, RigidbodyType::Static);
    let ci = contact(Vec3::new(0, 1000, 0), 600, still(), still());
    let _ = resolve_player(&mut player, &mut trans, floor, ci);
    assert!(player.is_grounded());
    // A later side contact (normal orthogonal to up) must not clear it.
    let wall = body(Vec3::new(2000, 0, 0), 0, RigidbodyType::Static);
    let side = contact(Vec3::new(-1000, 0, 0), 10, still(), still());
    let _ = resolve_player(&mut player, &mut trans, wall, side);
    assert!(player.is_grounded());
    // Only an explicit clear (a jump) resets it.
    player.set_grounded(false);
    assert!(!player.is_grounded());
}

#[test]
fn sideways_contact_does_not_ground() {
    let mut player = PlayerPositioning::new(Vec3::zero(), Quat::identity());
    let mut trans = Transform { translation: Vec3::zero() };
    let wall = body(Vec3::new(2000, 0, 0), 0, RigidbodyType::Static);
    let side = contact(Vec3::new(-1000, 0, 0), 10, still(), still());
    let _ = resolve_player(&mut player, &mut trans, wall, side);
    assert!(!player.is_grounded());
}

#[test]
fn dynamic_body_receives_one_way_transfer_on_returned_copy() {
    let mut player = PlayerPositioning::new(Vec3::zero(), Quat::identity());
    player.set_vel(Vec3::new(400, 0, 0));
    let mut trans = Transform { translation: Vec3::zero() };
    let crate_body = body(Vec3::new(1500, 0, 0), 1000, RigidbodyType::Dynamic);
    let ci = contact(Vec3::new(-1000, 0, 0), 100, still(), still());
    let updated = resolve_player(&mut player, &mut trans, crate_body, ci);
    // into-surface = dot((400,0,0), (-1,0,0)) = -0.4 < 0: clamped to zero.
    assert_eq!(player.get_vel(), Vec3::zero());
    // the corrected player velocity is accumulated onto the returned copy.
    assert_eq!(updated.velocity.linear, Vec3::zero());
    let crate_body2 = body(Vec3::new(1500, 0, 0), 1000, RigidbodyType::Dynamic);
    player.set_vel(Vec3::new(0, 0, 300));
    let tangent = contact(Vec3::new(-1000, 0, 0), 100, still(), still());
    let updated2 = resolve_player(&mut player, &mut trans, crate_body2, tangent);
    assert_eq!(updated2.velocity.linear, Vec3::new(0, 0, 300));
}
