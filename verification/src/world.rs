//! The tick driver: per-frame orchestration over an index-based arena of
//! bodies and transforms.
//!
//! One tick refreshes every collider's derived caches, runs the player
//! against every unrotated collider, then runs every unordered body pair
//! through the separating-axis test, resolving as it goes.  The pairwise
//! loop reads a pair out of the arena, resolves it on local copies, and
//! writes both entries back, so no body is ever borrowed twice at once.
//! Before any pair or player test, the driver checks the magnitude limits
//! under which a step cannot overflow and skips the work when they fail;
//! the specification mirrors carry the same guard.

use vstd::prelude::*;

verus! {

use crate::fx::SCALE;
use crate::vec3::{Vec3, vec_in, vec3_of, spec_dot};
use crate::bodies::{
    RigidbodyComponent, Transform, ContactInfo, Collider, collider_in, axes_in, vertices_in,
    spec_refreshed, body_in_limits,
};
use crate::detect::{
    spec_aabb_disjoint, spec_aabb_contact, aabb_player_vs_collider, axis_overlap,
    spec_sat_contact, get_collision_info,
};
use crate::resolve::{
    spec_push, spec_clamped_vel, spec_resolve_object, resolve_player, resolve_object_collisions,
    GROUNDED_DOT_FX,
};
use crate::player::PlayerPositioning;

/// The player's fixed box half-size: one unit wide, five tall, one deep.
pub open spec fn spec_player_half_size() -> Vec3 {
    Vec3 { x: SCALE, y: 5000, z: SCALE }
}

/// The player's fixed box half-size.
pub fn player_half_size() -> (r: Vec3)
    ensures
        r == spec_player_half_size(),
{
    Vec3 { x: SCALE, y: 5000, z: SCALE }
}

/// Every entry with its collider caches recomputed; nothing else changes.
pub open spec fn spec_refresh_all(items: Seq<(RigidbodyComponent, Transform)>) -> Seq<
    (RigidbodyComponent, Transform),
> {
    Seq::new(
        items.len(),
        |i: int|
            (
                RigidbodyComponent { collider: spec_refreshed(items[i].0.collider), ..items[i].0 },
                items[i].1,
            ),
    )
}

/// Refreshes every body's world-space axis and corner caches from its
/// current rotation, center and half-extents.
#[verifier::loop_isolation(false)]
#[verifier::rlimit(80)]
pub fn update_vertices(bodies: &mut Vec<(RigidbodyComponent, Transform)>)
    requires
        forall|i: int|
            0 <= i < old(bodies)@.len() ==> collider_in(
                (#[trigger] old(bodies)@[i]).0.collider,
                1_000_000_000,
            ),
    ensures
        final(bodies)@ =~= spec_refresh_all(old(bodies)@),
        final(bodies)@.len() == old(bodies)@.len(),
        forall|i: int|
            0 <= i < final(bodies)@.len() ==> {
                let c = (#[trigger] final(bodies)@[i]).0.collider;
                collider_in(c, 1_000_000_000) && axes_in(c, 13_000) && vertices_in(
                    c,
                    14_000_000_000,
                )
            },
{
    let n = bodies.len();
    let mut i: usize = 0;
    while i < n
        invariant
            i <= n,
            n == bodies@.len(),
            forall|k: int| i <= k < n ==> bodies@[k] == old(bodies)@[k],
            forall|k: int|
                0 <= k < i ==> (#[trigger] bodies@[k]) == (
                    RigidbodyComponent {
                        collider: spec_refreshed(old(bodies)@[k].0.collider),
                        ..old(bodies)@[k].0
                    },
                    old(bodies)@[k].1,
                ),
            forall|k: int|
                0 <= k < i ==> {
                    let c = (#[trigger] bodies@[k]).0.collider;
                    collider_in(c, 1_000_000_000) && axes_in(c, 13_000) && vertices_in(
                        c,
                        14_000_000_000,
                    )
                },
        decreases n - i,
    {
        let (mut body, t) = bodies[i];
        body.collider.refresh();
        bodies[i] = (body, t);
        i = i + 1;
    }
}

/// The player state after resolving one contact: latched grounded flag,
/// transform pushed out by the full penetration, velocity clamped.
pub open spec fn spec_resolve_player_state(
    pos: PlayerPositioning,
    t: Transform,
    ci: ContactInfo,
) -> (PlayerPositioning, Transform) {
    let g = pos.grounded || spec_dot(ci.normal, Vec3 { x: 0, y: SCALE, z: 0 }) > GROUNDED_DOT_FX
        as int;
    let t2 = Transform {
        translation: vec3_of(spec_push(t.translation, ci.normal, ci.penetration_depth as int)),
    };
    let v2 = vec3_of(spec_clamped_vel(pos.vel, ci.normal));
    (PlayerPositioning { vel: v2, grounded: g, ..pos }, t2)
}

/// The fast-path gate of the player detector: the collider's cached axes
/// are exactly the canonical world axes, so its box is unrotated.
pub open spec fn spec_player_gate(c: Collider) -> bool {
    &&& c.axes[0] == (Vec3 { x: SCALE, y: 0, z: 0 })
    &&& c.axes[1] == (Vec3 { x: 0, y: SCALE, z: 0 })
    &&& c.axes[2] == (Vec3 { x: 0, y: 0, z: SCALE })
}

/// The magnitude limits under which one player-vs-body step cannot
/// overflow.
pub open spec fn spec_player_guard(
    pos: PlayerPositioning,
    t: Transform,
    body: RigidbodyComponent,
) -> bool {
    &&& vec_in(t.translation, 1_000_000_000)
    &&& vec_in(pos.vel, 1_000_000_000)
    &&& vec_in(body.collider.center, 1_000_000_000)
    &&& vec_in(body.collider.half_extents, 1_000_000_000)
    &&& vec_in(body.velocity.linear, 1_000_000_000)
}

/// The player state after one body is considered: unchanged when the
/// magnitude guard fails, the collider is rotated, or the slab test finds
/// the boxes disjoint; resolved against the slab contact otherwise.
pub open spec fn spec_player_step(
    pos: PlayerPositioning,
    t: Transform,
    body: RigidbodyComponent,
) -> (PlayerPositioning, Transform) {
    if spec_player_guard(pos, t, body) && spec_player_gate(body.collider) {
        if spec_aabb_disjoint(
            t.translation,
            spec_player_half_size(),
            body.collider.center,
            body.collider.half_extents,
        ) {
            (pos, t)
        } else {
            spec_resolve_player_state(
                pos,
                t,
                spec_aabb_contact(
                    t.translation,
                    spec_player_half_size(),
                    pos.vel,
                    body.collider,
                    body.velocity,
                ),
            )
        }
    } else {
        (pos, t)
    }
}

/// The player state after the first `n` bodies are considered in order.
pub open spec fn spec_player_pass(
    pos: PlayerPositioning,
    t: Transform,
    bodies: Seq<(RigidbodyComponent, Transform)>,
    n: int,
) -> (PlayerPositioning, Transform)
    decreases n,
{
    if n <= 0 {
        (pos, t)
    } else {
        let s = spec_player_pass(pos, t, bodies, n - 1);
        spec_player_step(s.0, s.1, bodies[n - 1].0)
    }
}

/// Runs the player against every body in order, resolving each slab-test
/// contact on an unrotated collider.  The grounded latch only ever turns
/// on here; nothing in the detector clears it.
#[verifier::loop_isolation(false)]
pub fn detect_player_collisions(
    player: &mut PlayerPositioning,
    trans: &mut Transform,
    bodies: &Vec<(RigidbodyComponent, Transform)>,
)
    ensures
        ({
            let s = spec_player_pass(*old(player), *old(trans), bodies@, bodies@.len() as int);
            *final(player) == s.0 && *final(trans) == s.1
        }),
        old(player).grounded ==> final(player).grounded,
        final(player).loc == old(player).loc,
        final(player).dir == old(player).dir,
{
    let n = bodies.len();
    let mut i: usize = 0;
    while i < n
        invariant
            i <= n,
            n == bodies@.len(),
            ({
                let s = spec_player_pass(*old(player), *old(trans), bodies@, i as int);
                *player == s.0 && *trans == s.1
            }),
            old(player).grounded ==> player.grounded,
            player.loc == old(player).loc,
            player.dir == old(player).dir,
        decreases n - i,
    {
        let body: RigidbodyComponent = bodies[i].0;
        let ok = trans.translation.in_bounds(1_000_000_000) && player.vel.in_bounds(1_000_000_000)
            && body.collider.center.in_bounds(1_000_000_000)
            && body.collider.half_extents.in_bounds(1_000_000_000)
            && body.velocity.linear.in_bounds(1_000_000_000);
        if ok {
            let gate = body.collider.axes[0] == (Vec3 { x: SCALE, y: 0, z: 0 })
                && body.collider.axes[1] == (Vec3 { x: 0, y: SCALE, z: 0 })
                && body.collider.axes[2] == (Vec3 { x: 0, y: 0, z: SCALE });
            if gate {
                if let Some(contact) = aabb_player_vs_collider(
                    trans.translation,
                    player_half_size(),
                    player.vel,
                    &body.collider,
                    &body.velocity,
                ) {
                    let _ = resolve_player(player, trans, body, contact);
                }
            }
            // a rotated collider would need the separating-axis test on the
            // player path, which this engine leaves unimplemented
        }
        i = i + 1;
    }
}

/// The grounded flag latches: a contact whose normal has an up component
/// above the threshold turns it on, and once on, no amount of further
/// detection turns it off — only an explicit clear elsewhere can.
pub proof fn lemma_grounded_latch(
    pos: PlayerPositioning,
    t: Transform,
    bodies: Seq<(RigidbodyComponent, Transform)>,
    n: int,
)
    requires
        pos.grounded,
    ensures
        spec_player_pass(pos, t, bodies, n).0.grounded,
    decreases n,
{
    if n > 0 {
        lemma_grounded_latch(pos, t, bodies, n - 1);
    }
}

/// The magnitude limits under which one pairwise step cannot overflow.
pub open spec fn spec_pair_guard(a: RigidbodyComponent, b: RigidbodyComponent) -> bool {
    &&& body_in_limits(a)
    &&& body_in_limits(b)
    &&& axes_in(a.collider, 13_000)
    &&& vertices_in(a.collider, 14_000_000_000)
    &&& axes_in(b.collider, 13_000)
    &&& vertices_in(b.collider, 14_000_000_000)
}

/// The arena after the pair `(i, j)` is considered: unchanged when the
/// magnitude guard fails or some candidate axis separates the pair;
/// otherwise both entries are rewritten by one resolution step over the
/// separating-axis contact.
pub open spec fn spec_object_step(
    items: Seq<(RigidbodyComponent, Transform)>,
    i: int,
    j: int,
) -> Seq<(RigidbodyComponent, Transform)> {
    let a = items[i].0;
    let ta = items[i].1;
    let b = items[j].0;
    let tb = items[j].1;
    if !spec_pair_guard(a, b) {
        items
    } else if exists|k: int| 0 <= k < 6 && axis_overlap(a.collider, b.collider, k) <= 0 {
        items
    } else {
        let ci = spec_sat_contact(a.collider, a.velocity, b.collider, b.velocity);
        let r = spec_resolve_object(a, ta, b, tb, ci);
        items.update(i, (r.0, r.1)).update(j, (r.2, r.3))
    }
}

/// The arena after the pairs `(i, i+1) .. (i, j-1)` are considered.
pub open spec fn spec_object_inner(
    items: Seq<(RigidbodyComponent, Transform)>,
    i: int,
    j: int,
) -> Seq<(RigidbodyComponent, Transform)>
    decreases j - i,
{
    if j <= i + 1 {
        items
    } else {
        spec_object_step(spec_object_inner(items, i, j - 1), i, j - 1)
    }
}

/// The arena after every pair with first index below `i` is considered.
pub open spec fn spec_object_pass(
    items: Seq<(RigidbodyComponent, Transform)>,
    i: int,
) -> Seq<(RigidbodyComponent, Transform)>
    decreases i,
{
    if i <= 0 {
        items
    } else {
        spec_object_inner(spec_object_pass(items, i - 1), i - 1, items.len() as int)
    }
}

/// One pairwise step keeps the arena's length.
proof fn lemma_object_step_len(items: Seq<(RigidbodyComponent, Transform)>, i: int, j: int)
    requires
        0 <= i < items.len(),
        0 <= j < items.len(),
    ensures
        spec_object_step(items, i, j).len() == items.len(),
{
}

/// The inner pass keeps the arena's length.
proof fn lemma_object_inner_len(items: Seq<(RigidbodyComponent, Transform)>, i: int, j: int)
    requires
        0 <= i < items.len(),
        i + 1 <= j <= items.len(),
    ensures
        spec_object_inner(items, i, j).len() == items.len(),
    decreases j,
{
    if j <= i + 1 {
    } else {
        lemma_object_inner_len(items, i, j - 1);
        lemma_object_step_len(spec_object_inner(items, i, j - 1), i, j - 1);
    }
}

/// The outer pass keeps the arena's length.
proof fn lemma_object_pass_len(items: Seq<(RigidbodyComponent, Transform)>, i: int)
    requires
        0 <= i <= items.len(),
    ensures
        spec_object_pass(items, i).len() == items.len(),
    decreases i,
{
    if i <= 0 {
    } else {
        lemma_object_pass_len(items, i - 1);
        lemma_object_inner_len(spec_object_pass(items, i - 1), i - 1, items.len() as int);
    }
}

/// Runs every unordered pair of bodies through the separating-axis test
/// and resolves each contact in place.  Each pair is read out of the
/// arena, resolved on local copies, and written back to its two slots, so
/// the two mutable borrows of a pair are always disjoint.
#[verifier::loop_isolation(false)]
#[verifier::rlimit(80)]
pub fn detect_object_collisions(items: &mut Vec<(RigidbodyComponent, Transform)>)
    ensures
        final(items)@.len() == old(items)@.len(),
        final(items)@ == spec_object_pass(old(items)@, old(items)@.len() as int),
{
    let n = items.len();
    proof {
        lemma_object_pass_len(items@, 0);
    }
    let mut i: usize = 0;
    while i < n
        invariant
            i <= n,
            n == old(items)@.len(),
            items@.len() == n,
            items@ == spec_object_pass(old(items)@, i as int),
        decreases n - i,
    {
        let mut j: usize = i + 1;
        proof {
            lemma_object_pass_len(old(items)@, i as int);
        }
        while j < n
            invariant
                i < n,
                i + 1 <= j <= n,
                n == old(items)@.len(),
                items@.len() == n,
                items@ == spec_object_inner(
                    spec_object_pass(old(items)@, i as int),
                    i as int,
                    j as int,
                ),
            decreases n - j,
        {
            let (mut body_a, mut transform_a) = items[i];
            let (mut body_b, mut transform_b) = items[j];
            let ok = body_a.limits_check() && body_b.limits_check()
                && body_a.collider.caches_check() && body_b.collider.caches_check();
            if ok {
                if let Some(collision_data) = get_collision_info(
                    &body_a.collider,
                    &body_a.velocity,
                    &body_b.collider,
                    &body_b.velocity,
                ) {
                    resolve_object_collisions(
                        &mut body_a,
                        &mut transform_a,
                        &mut body_b,
                        &mut transform_b,
                        &collision_data,
                    );
                    let slot_a = (body_a, transform_a);
                    let slot_b = (body_b, transform_b);
                    items[i] = slot_a;
                    items[j] = slot_b;
                }
            }
            j = j + 1;
        }
        i = i + 1;
    }
}

/// One full simulation tick: refresh every collider's caches, run the
/// player against the world, then run every body pair.
pub fn tick(
    player: &mut PlayerPositioning,
    trans: &mut Transform,
    bodies: &mut Vec<(RigidbodyComponent, Transform)>,
)
    requires
        forall|i: int|
            0 <= i < old(bodies)@.len() ==> collider_in(
                (#[trigger] old(bodies)@[i]).0.collider,
                1_000_000_000,
            ),
    ensures
        ({
            let refreshed = spec_refresh_all(old(bodies)@);
            let s = spec_player_pass(*old(player), *old(trans), refreshed, refreshed.len() as int);
            &&& *final(player) == s.0
            &&& *final(trans) == s.1
            &&& final(bodies)@ == spec_object_pass(refreshed, refreshed.len() as int)
        }),
        old(player).grounded ==> final(player).grounded,
{
    update_vertices(bodies);
    detect_player_collisions(player, trans, bodies);
    detect_object_collisions(bodies);
}

} // verus!
