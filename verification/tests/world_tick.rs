use zphy::bodies::{Damping, RigidbodyComponent, RigidbodyType, Transform, Velocity};
use zphy::bodies::Collider;
use zphy::player::{PlayerPositioning, PlayerUsername};
use zphy::quat::Quat;
use zphy::vec3::Vec3;
use zphy::world::{detect_object_collisions, detect_player_collisions, tick, update_vertices};

fn still() -> Velocity {
    Velocity { linear: Vec3::zero(), angular: Vec3::zero() }
}

fn body(
    center: Vec3,
    half_extents: Vec3,
    inverse_mass: i64,
    rbt: RigidbodyType,
) -> (RigidbodyComponent, Transform) {
    let collider = Collider::new(center, half_extents, Quat::identity());
    (
        RigidbodyComponent {
            collider,
            velocity: still(),
            inverse_mass,
            friction: 0,
            restitution: 0,
            damping: Damping { linear: 0 },
            rbt,
        },
        Transform { translation: center },
    )
}

#[test]
fn refresh_is_idempotent() {
    let tilted = Collider::new(Vec3::new(100, 200, 300), Vec3::new(1000, 2000, 3000), Quat::new(
        0, 0, 383, 924,
    ));
    let mut once = tilted;
    once.refresh();
    let mut twice = once;
    twice.refresh();
    assert_eq!(once, twice);
}

#[test]
fn update_vertices_rebuilds_caches() {
    let (mut b0, t0) = body(
        Vec3::zero(),
        Vec3::new(1000, 1000, 1000),
        0,
        RigidbodyType::Static,
    );
    // Stale caches: the rotation changed after construction.
    b0.collider.rotation = Quat::new(0, 0, 707, 707);
    let mut bodies = vec![(b0, t0)];
    update_vertices(&mut bodies);
    let refreshed = bodies[0].0.collider;
    let mut expected = b0.collider;
    expected.refresh();
    assert_eq!(refreshed, expected);
    // A quarter turn about Z sends the X axis near (0, 1, 0).
    let ax = refreshed.axes[0];
    assert!(ax.x.abs() <= 5 && (ax.y - 1000).abs() <= 5 && ax.z == 0);
}

#[test]
fn player_pass_grounds_player_on_floor() {
    let floor = body(
        Vec3::new(0, -4900, 0),
        Vec3::new(50_000, 500, 50_000),
        0,
        RigidbodyType::Static,
    );
    let bodies = vec![floor];
    let mut player = PlayerPositioning::new(Vec3::zero(), Quat::identity());
    player.set_vel(Vec3::new(0, -300, 0));
    let mut trans = Transform { translation: Vec3::zero() };
    detect_player_collisions(&mut player, &mut trans, &bodies);
    assert!(player.is_grounded());
    assert_eq!(trans.translation, Vec3::new(0, 600, 0));
    assert_eq!(player.get_vel(), Vec3::zero());
}

#[test]
fn player_pass_skips_rotated_colliders() {
    // The slab gate requires the cached axes to be exactly the world axes;
    // a rotated collider falls through without any resolution.
    let mut tilted = body(
        Vec3::new(0, -4900, 0),
        Vec3::new(50_000, 500, 50_000),
        0,
        RigidbodyType::Static,
    );
    tilted.0.collider = Collider::new(
        Vec3::new(0, -4900, 0),
        Vec3::new(50_000, 500, 50_000),
        Quat::new(0, 0, 383, 924),
    );
    let bodies = vec![tilted];
    let mut player = PlayerPositioning::new(Vec3::zero(), Quat::identity());
    let mut trans = Transform { translation: Vec3::zero() };
    detect_player_collisions(&mut player, &mut trans, &bodies);
    assert!(!player.is_grounded());
    assert_eq!(trans.translation, Vec3::zero());
}

#[test]
fn object_pass_separates_overlapping_pair() {
    let heavy = body(
        Vec3::zero(),
        Vec3::new(1000, 1000, 1000),
        0,
        RigidbodyType::Static,
    );
    let light = body(
        Vec3::new(1500, 0, 0),
        Vec3::new(1000, 1000, 1000),
        1000,
        RigidbodyType::Dynamic,
    );
    let mut items = vec![heavy, light];
    detect_object_collisions(&mut items);
    // The static body never moves.
    assert_eq!(items[0].0.collider.center, Vec3::zero());
    assert_eq!(items[0].1.translation, Vec3::zero());
    // The dynamic one takes the whole 0.5-unit correction along +X.
    assert_eq!(items[1].0.collider.center, Vec3::new(2000, 0, 0));
    assert_eq!(items[1].1.translation, Vec3::new(2000, 0, 0));
}

#[test]
fn object_pass_leaves_separated_pair_alone() {
    let a = body(Vec3::zero(), Vec3::new(1000, 1000, 1000), 1000, RigidbodyType::Dynamic);
    let b = body(
        Vec3::new(5000, 0, 0),
        Vec3::new(1000, 1000, 1000),
        1000,
        RigidbodyType::Dynamic,
    );
    let mut items = vec![a, b];
    let before: Vec<_> = items.clone();
    detect_object_collisions(&mut items);
    assert_eq!(items[0].0, before[0].0);
    assert_eq!(items[1].0, before[1].0);
}

#[test]
fn full_tick_grounds_player_and_keeps_floor() {
    let floor = body(
        Vec3::new(0, -4900, 0),
        Vec3::new(50_000, 500, 50_000),
        0,
        RigidbodyType::Static,
    );
    let mut bodies = vec![floor];
    let mut player = PlayerPositioning::new(Vec3::zero(), Quat::identity());
    let mut trans = Transform { translation: Vec3::zero() };
    tick(&mut player, &mut trans, &mut bodies);
    assert!(player.is_grounded());
    assert_eq!(bodies[0].0.collider.center, Vec3::new(0, -4900, 0));
}

#[test]
fn empty_world_changes_nothing() {
    let mut items: Vec<(RigidbodyComponent, Transform)> = Vec::new();
    detect_object_collisions(&mut items);
    assert!(items.is_empty());
    let mut player = PlayerPositioning::new(Vec3::new(7, 8, 9), Quat::identity());
    let mut trans = Transform { translation: Vec3::new(7, 8, 9) };
    detect_player_collisions(&mut player, &mut trans, &items);
    assert_eq!(trans.translation, Vec3::new(7, 8, 9));
    assert!(!player.is_grounded());
}

#[test]
fn projection_covers_the_cube_extent() {
    let c = Collider::new(Vec3::new(500, 0, 0), Vec3::new(1000, 2000, 3000), Quat::identity());
    let (lo, hi) = zphy::detect::project_collider(&c, Vec3::new(1000, 0, 0));
    assert_eq!((lo, hi), (-500, 1500));
    let (lo, hi) = zphy::detect::project_collider(&c, Vec3::new(0, 1000, 0));
    assert_eq!((lo, hi), (-2000, 2000));
}

#[test]
fn username_wraps_the_given_name() {
    let name = PlayerUsername::new("rustling");
    assert_eq!(name.0, "rustling");
}
