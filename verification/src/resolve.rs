//! Contact resolution: player-vs-body and object-vs-object.

use vstd::prelude::*;

verus! {

use crate::fx::{SCALE, tdiv, spec_fmul, spec_max, lemma_fmul_unit, lemma_fmul_bound};
use crate::vec3::{
    Vec3, vec_in, vec3_of, spec_dot, is_cardinal_unit, lemma_vec_pair_fits, lemma_vec_mul_fits,
    lemma_dot_bound,
};
use crate::bodies::{
    RigidbodyComponent, RigidbodyType, Transform, ContactInfo, Velocity, Collider, axis_of,
    body_in_limits, contact_in_limits,
};
use crate::player::PlayerPositioning;

/// The grounded threshold: a contact normal whose dot with world up
/// exceeds this latches the player as grounded.
pub const GROUNDED_DOT_FX: i64 = 700;

/// A translation pushed out of a contact by the normal scaled with the
/// penetration depth.
pub open spec fn spec_push(t: Vec3, n: Vec3, depth: int) -> (int, int, int) {
    (
        t.x + spec_fmul(n.x as int, depth),
        t.y + spec_fmul(n.y as int, depth),
        t.z + spec_fmul(n.z as int, depth),
    )
}

/// A velocity with its into-surface component removed: unchanged when the
/// normal component is already outward, otherwise the projection onto the
/// normal is subtracted.
pub open spec fn spec_clamped_vel(vel: Vec3, n: Vec3) -> (int, int, int) {
    let into = spec_dot(vel, n);
    if into < 0 {
        (
            vel.x - spec_fmul(n.x as int, into),
            vel.y - spec_fmul(n.y as int, into),
            vel.z - spec_fmul(n.z as int, into),
        )
    } else {
        (vel.x as int, vel.y as int, vel.z as int)
    }
}

/// Clamping along a cardinal unit normal removes the whole normal
/// component: the clamped velocity's projection onto the normal is zero.
pub proof fn lemma_clamp_zeroes_normal_component(vel: Vec3, n: Vec3)
    requires
        is_cardinal_unit(n),
        spec_dot(vel, n) < 0,
    ensures
        spec_dot(vec3_of(spec_clamped_vel(vel, n)), n) == 0,
{
    let into = spec_dot(vel, n);
    lemma_fmul_unit(vel.x as int);
    lemma_fmul_unit(vel.y as int);
    lemma_fmul_unit(vel.z as int);
    lemma_fmul_unit(into);
    let c = vec3_of(spec_clamped_vel(vel, n));
    lemma_fmul_unit(c.x as int);
    lemma_fmul_unit(c.y as int);
    lemma_fmul_unit(c.z as int);
}

/// Pushes the player's transform out along the contact normal and removes
/// the into-surface component of the player's velocity.
fn push_and_clamp(player: &mut PlayerPositioning, trans: &mut Transform, info: &ContactInfo)
    requires
        vec_in(info.normal, SCALE as int),
        0 <= info.penetration_depth <= 4_000_000_000,
        vec_in(old(player).vel, 1_000_000_000),
        vec_in(old(trans).translation, 1_000_000_000),
    ensures
        final(trans).translation == vec3_of(
            spec_push(old(trans).translation, info.normal, info.penetration_depth as int),
        ),
        final(player).vel == vec3_of(spec_clamped_vel(old(player).vel, info.normal)),
        *final(player) == (PlayerPositioning { vel: final(player).vel, ..*old(player) }),
        vec_in(final(player).vel, 4_000_000_000),
        vec_in(final(trans).translation, 5_000_000_000),
{
    proof {
        lemma_vec_mul_fits(info.normal, info.penetration_depth as int, SCALE as int, 4_000_000_000);
        lemma_fmul_bound(
            info.normal.x as int,
            info.penetration_depth as int,
            SCALE as int,
            4_000_000_000,
        );
        lemma_fmul_bound(
            info.normal.y as int,
            info.penetration_depth as int,
            SCALE as int,
            4_000_000_000,
        );
        lemma_fmul_bound(
            info.normal.z as int,
            info.penetration_depth as int,
            SCALE as int,
            4_000_000_000,
        );
    }
    let push = info.normal.scaled(info.penetration_depth);
    let moved = trans.translation.plus(push);
    trans.translation = moved;
    proof {
        lemma_vec_pair_fits(player.vel, info.normal, 1_000_000_000, SCALE as int);
        lemma_dot_bound(player.vel, info.normal, 1_000_000_000, SCALE as int);
    }
    let into_surface: i64 = player.vel.dot(info.normal);
    if into_surface < 0 {
        proof {
            lemma_vec_mul_fits(info.normal, into_surface as int, SCALE as int, 3_000_000_000);
            lemma_fmul_bound(info.normal.x as int, into_surface as int, SCALE as int, 3_000_000_000);
            lemma_fmul_bound(info.normal.y as int, into_surface as int, SCALE as int, 3_000_000_000);
            lemma_fmul_bound(info.normal.z as int, into_surface as int, SCALE as int, 3_000_000_000);
        }
        let delta = info.normal.scaled(into_surface);
        let clamped = player.vel.minus(delta);
        player.vel = clamped;
    }
}

/// Resolves a player contact against a body.
///
/// Latches `grounded` when the normal points sufficiently up, pushes the
/// player (and only the player) out by the full penetration, and clamps
/// the player's velocity so it no longer moves into the surface.  For a
/// dynamic body the player's corrected velocity is also accumulated onto
/// the returned copy of the body — a one-way transfer; the caller decides
/// what to do with that copy, and the tick driver, which works on a
/// per-tick snapshot of the bodies, drops it.
pub fn resolve_player(
    player: &mut PlayerPositioning,
    trans: &mut Transform,
    body: RigidbodyComponent,
    info: ContactInfo,
) -> (r: RigidbodyComponent)
    requires
        vec_in(info.normal, SCALE as int),
        0 <= info.penetration_depth <= 4_000_000_000,
        vec_in(old(player).vel, 1_000_000_000),
        vec_in(old(trans).translation, 1_000_000_000),
        vec_in(body.velocity.linear, 1_000_000_000),
    ensures
        final(player).grounded == (old(player).grounded || spec_dot(
            info.normal,
            Vec3 { x: 0, y: SCALE, z: 0 },
        ) > GROUNDED_DOT_FX),
        old(player).grounded ==> final(player).grounded,
        final(player).loc == old(player).loc,
        final(player).dir == old(player).dir,
        final(trans).translation == vec3_of(
            spec_push(old(trans).translation, info.normal, info.penetration_depth as int),
        ),
        final(player).vel == vec3_of(spec_clamped_vel(old(player).vel, info.normal)),
        r == (RigidbodyComponent {
            velocity: Velocity {
                linear: if body.rbt == RigidbodyType::Dynamic {
                    Vec3 {
                        x: (body.velocity.linear.x + final(player).vel.x) as i64,
                        y: (body.velocity.linear.y + final(player).vel.y) as i64,
                        z: (body.velocity.linear.z + final(player).vel.z) as i64,
                    }
                } else {
                    body.velocity.linear
                },
                angular: body.velocity.angular,
            },
            ..body
        }),
        is_cardinal_unit(info.normal) && spec_dot(old(player).vel, info.normal) < 0 ==> spec_dot(
            final(player).vel,
            info.normal,
        ) == 0,
{
    let up = Vec3 { x: 0, y: SCALE, z: 0 };
    proof {
        lemma_vec_pair_fits(info.normal, up, SCALE as int, SCALE as int);
    }
    if info.normal.dot(up) > GROUNDED_DOT_FX {
        player.grounded = true;
    }
    let mut body = body;
    if body.rbt == RigidbodyType::Static {
        push_and_clamp(player, trans, &info);
    }
    if body.rbt == RigidbodyType::Dynamic {
        push_and_clamp(player, trans, &info);
        let transferred = body.velocity.linear.plus(player.vel);
        body.velocity.linear = transferred;
    }
    proof {
        if is_cardinal_unit(info.normal) && spec_dot(old(player).vel, info.normal) < 0 {
            lemma_clamp_zeroes_normal_component(old(player).vel, info.normal);
        }
    }
    body
}

/// The shared positional correction of a pair: the normal scaled by the
/// penetration depth divided by the total inverse mass.
pub open spec fn spec_correction(n: Vec3, depth: int, m: int) -> (int, int, int) {
    let q = tdiv(depth * (SCALE as int), m);
    (spec_fmul(n.x as int, q), spec_fmul(n.y as int, q), spec_fmul(n.z as int, q))
}

/// A body's linear velocity after resolution: the old velocity scaled by
/// one minus friction, plus restitution times the normal-plus-snapshot
/// velocity scaled by one minus linear damping, plus the opposing body's
/// snapshot velocity.
pub open spec fn spec_linear_after(
    body: RigidbodyComponent,
    n: Vec3,
    temp: Vec3,
    other_lin: Vec3,
) -> (int, int, int) {
    let s = SCALE as int;
    let base = (
        spec_fmul(body.velocity.linear.x as int, s - body.friction),
        spec_fmul(body.velocity.linear.y as int, s - body.friction),
        spec_fmul(body.velocity.linear.z as int, s - body.friction),
    );
    let t1 = (
        spec_fmul(n.x + temp.x, body.restitution as int),
        spec_fmul(n.y + temp.y, body.restitution as int),
        spec_fmul(n.z + temp.z, body.restitution as int),
    );
    let t2 = (
        spec_fmul(t1.0, s - body.damping.linear),
        spec_fmul(t1.1, s - body.damping.linear),
        spec_fmul(t1.2, s - body.damping.linear),
    );
    (base.0 + t2.0 + other_lin.x, base.1 + t2.1 + other_lin.y, base.2 + t2.2 + other_lin.z)
}

/// A movable body after the positional and linear-velocity part of a
/// resolution step: the center shifted by its share of the correction, the
/// angular velocity zeroed, the linear velocity rewritten.
pub open spec fn spec_body_after_linear(
    body: RigidbodyComponent,
    corr: (int, int, int),
    n: Vec3,
    temp: Vec3,
    other_lin: Vec3,
) -> RigidbodyComponent {
    RigidbodyComponent {
        collider: Collider {
            center: vec3_of(
                (
                    body.collider.center.x + spec_fmul(corr.0, body.inverse_mass as int),
                    body.collider.center.y + spec_fmul(corr.1, body.inverse_mass as int),
                    body.collider.center.z + spec_fmul(corr.2, body.inverse_mass as int),
                ),
            ),
            ..body.collider
        },
        velocity: Velocity {
            linear: vec3_of(spec_linear_after(body, n, temp, other_lin)),
            angular: Vec3 { x: 0, y: 0, z: 0 },
        },
        ..body
    }
}

/// The angular velocity a dynamic body gains: the Euler angles of the
/// shortest-arc rotation aligning its rotated world-up with the contact
/// normal, scaled by its inverse mass and by its speed floored at 6.5
/// units, added onto its current angular velocity.
pub open spec fn spec_angular_after(body: RigidbodyComponent, n: Vec3) -> Vec3 {
    let down = axis_of(body.collider.rotation, Vec3 { x: 0, y: SCALE, z: 0 });
    let aq = crate::angles::spec_align(down, n);
    let e = crate::angles::spec_euler_xyz(aq);
    let ev = vec3_of(e);
    let t1 = vec3_of(
        (
            spec_fmul(ev.x as int, body.inverse_mass as int),
            spec_fmul(ev.y as int, body.inverse_mass as int),
            spec_fmul(ev.z as int, body.inverse_mass as int),
        ),
    );
    let ml = spec_max(crate::vec3::spec_len(body.velocity.linear), 6500);
    let t2 = (
        spec_fmul(t1.x as int, ml),
        spec_fmul(t1.y as int, ml),
        spec_fmul(t1.z as int, ml),
    );
    vec3_of(
        (
            body.velocity.angular.x + t2.0,
            body.velocity.angular.y + t2.1,
            body.velocity.angular.z + t2.2,
        ),
    )
}

/// One object-vs-object resolution step over a contact.
///
/// A zero total inverse mass leaves everything unchanged.  Otherwise each
/// non-static body takes its share of the positional correction and the
/// linear-velocity rewrite — both reusing the first body's velocity as
/// snapshotted before any change — and a dynamic first body additionally
/// gains the aligning angular impulse, computed from its already-updated
/// linear velocity.
pub open spec fn spec_resolve_object(
    a: RigidbodyComponent,
    ta: Transform,
    b: RigidbodyComponent,
    tb: Transform,
    c: ContactInfo,
) -> (RigidbodyComponent, Transform, RigidbodyComponent, Transform) {
    let m = a.inverse_mass + b.inverse_mass;
    if m == 0 {
        (a, ta, b, tb)
    } else {
        let corr = spec_correction(c.normal, c.penetration_depth as int, m);
        let temp = a.velocity.linear;
        let a1 = if a.rbt != RigidbodyType::Static {
            spec_body_after_linear(a, corr, c.normal, temp, c.b_vel.linear)
        } else {
            a
        };
        let ta1 = if a.rbt != RigidbodyType::Static {
            Transform { translation: a1.collider.center }
        } else {
            ta
        };
        let a2 = if a.rbt == RigidbodyType::Dynamic {
            RigidbodyComponent {
                velocity: Velocity { angular: spec_angular_after(a1, c.normal), ..a1.velocity },
                ..a1
            }
        } else {
            a1
        };
        let b1 = if b.rbt != RigidbodyType::Static {
            spec_body_after_linear(b, corr, c.normal, temp, c.a_vel.linear)
        } else {
            b
        };
        let tb1 = if b.rbt != RigidbodyType::Static {
            Transform { translation: b1.collider.center }
        } else {
            tb
        };
        (a2, ta1, b1, tb1)
    }
}

/// Applies the positional correction share and the linear-velocity
/// rewrite of one resolution step to a movable body, and mirrors the new
/// center into its transform.
fn apply_linear(
    body: &mut RigidbodyComponent,
    tf: &mut Transform,
    correction: Vec3,
    q: i64,
    n: Vec3,
    temp: Vec3,
    other_lin: Vec3,
)
    requires
        body_in_limits(*old(body)),
        0 <= q <= 100_000_000_000_000,
        -q <= correction.x <= q,
        -q <= correction.y <= q,
        -q <= correction.z <= q,
        q * old(body).inverse_mass <= 100_000_000_000_000,
        vec_in(n, SCALE as int),
        vec_in(temp, 10_000_000),
        vec_in(other_lin, 10_000_000),
    ensures
        *final(body) == spec_body_after_linear(
            *old(body),
            (correction.x as int, correction.y as int, correction.z as int),
            n,
            temp,
            other_lin,
        ),
        *final(tf) == (Transform { translation: final(body).collider.center }),
        vec_in(final(body).velocity.linear, 300_000_000),
        vec_in(final(body).collider.center, 102_000_000_000),
{
    proof {
        let im = body.inverse_mass as int;
        crate::fx::lemma_mul_bound(correction.x as int, im, q as int, im);
        crate::fx::lemma_mul_bound(correction.y as int, im, q as int, im);
        crate::fx::lemma_mul_bound(correction.z as int, im, q as int, im);
        lemma_fmul_bound(correction.x as int, im, q as int, im);
        lemma_fmul_bound(correction.y as int, im, q as int, im);
        lemma_fmul_bound(correction.z as int, im, q as int, im);
        vstd::arithmetic::div_mod::lemma_div_is_ordered(
            (q as int) * im,
            100_000_000_000_000,
            SCALE as int,
        );
        vstd::arithmetic::div_mod::lemma_div_is_ordered(0, (q as int) * im, SCALE as int);
    }
    let shift = correction.scaled(body.inverse_mass);
    let c2 = body.collider.center.plus(shift);
    body.collider.center = c2;
    proof {
        lemma_vec_mul_fits(
            body.velocity.linear,
            (SCALE - body.friction) as int,
            10_000_000,
            5_000,
        );
        lemma_fmul_bound(
            body.velocity.linear.x as int,
            (SCALE - body.friction) as int,
            10_000_000,
            5_000,
        );
        lemma_fmul_bound(
            body.velocity.linear.y as int,
            (SCALE - body.friction) as int,
            10_000_000,
            5_000,
        );
        lemma_fmul_bound(
            body.velocity.linear.z as int,
            (SCALE - body.friction) as int,
            10_000_000,
            5_000,
        );
    }
    let lv = body.velocity.linear.scaled(SCALE - body.friction);
    body.velocity.linear = lv;
    body.velocity.angular = Vec3 { x: 0, y: 0, z: 0 };
    let nv = n.plus(temp);
    proof {
        lemma_vec_mul_fits(nv, body.restitution as int, 10_001_000, 4_000);
        lemma_fmul_bound(nv.x as int, body.restitution as int, 10_001_000, 4_000);
        lemma_fmul_bound(nv.y as int, body.restitution as int, 10_001_000, 4_000);
        lemma_fmul_bound(nv.z as int, body.restitution as int, 10_001_000, 4_000);
    }
    let t1 = nv.scaled(body.restitution);
    proof {
        lemma_vec_mul_fits(t1, (SCALE - body.damping.linear) as int, 40_004_000, 5_000);
        lemma_fmul_bound(t1.x as int, (SCALE - body.damping.linear) as int, 40_004_000, 5_000);
        lemma_fmul_bound(t1.y as int, (SCALE - body.damping.linear) as int, 40_004_000, 5_000);
        lemma_fmul_bound(t1.z as int, (SCALE - body.damping.linear) as int, 40_004_000, 5_000);
    }
    let t2 = t1.scaled(SCALE - body.damping.linear);
    let sum = lv.plus(t2).plus(other_lin);
    body.velocity.linear = sum;
    tf.translation = c2;
}

/// Resolves one detected contact between two bodies, mutating both bodies
/// and their transforms in place as `spec_resolve_object` lays out.  Two
/// static bodies, or a zero total inverse mass, leave everything
/// unchanged.
pub fn resolve_object_collisions(
    a: &mut RigidbodyComponent,
    tf_a: &mut Transform,
    b: &mut RigidbodyComponent,
    tf_b: &mut Transform,
    contact: &ContactInfo,
)
    requires
        body_in_limits(*old(a)),
        body_in_limits(*old(b)),
        contact_in_limits(*contact),
    ensures
        (*final(a), *final(tf_a), *final(b), *final(tf_b)) == spec_resolve_object(
            *old(a),
            *old(tf_a),
            *old(b),
            *old(tf_b),
            *contact,
        ),
        old(a).rbt == RigidbodyType::Static ==> *final(a) == *old(a) && *final(tf_a) == *old(
            tf_a,
        ),
        old(b).rbt == RigidbodyType::Static ==> *final(b) == *old(b) && *final(tf_b) == *old(
            tf_b,
        ),
{
    let total_inverse_mass: i64 = a.inverse_mass + b.inverse_mass;
    if total_inverse_mass == 0 {
        return ;
    }
    let ghost p: int = (contact.penetration_depth as int) * (SCALE as int);
    proof {
        crate::fx::lemma_tdiv_bound(p, total_inverse_mass as int, 100_000_000_000_000);
        vstd::arithmetic::div_mod::lemma_div_is_ordered(0, p, total_inverse_mass as int);
    }
    let q: i64 = crate::fx::fdiv(contact.penetration_depth, total_inverse_mass);
    proof {
        lemma_vec_mul_fits(contact.normal, q as int, SCALE as int, 100_000_000_000_000);
        lemma_fmul_bound(contact.normal.x as int, q as int, SCALE as int, q as int);
        lemma_fmul_bound(contact.normal.y as int, q as int, SCALE as int, q as int);
        lemma_fmul_bound(contact.normal.z as int, q as int, SCALE as int, q as int);
        assert(((SCALE as int) * (q as int)) / (SCALE as int) == q as int) by (nonlinear_arith)
            requires
                q >= 0,
        ;
        crate::fx::lemma_div_scale_bound(p, total_inverse_mass as int, a.inverse_mass as int);
        crate::fx::lemma_div_scale_bound(p, total_inverse_mass as int, b.inverse_mass as int);
    }
    let correction = contact.normal.scaled(q);
    let temp_vel = a.velocity.linear;
    if a.rbt != RigidbodyType::Static {
        apply_linear(a, tf_a, correction, q, contact.normal, temp_vel, contact.b_vel.linear);
    }
    if a.rbt == RigidbodyType::Dynamic {
        let world_down = Vec3 { x: 0, y: SCALE, z: 0 };
        proof {
            crate::quat::lemma_spec_rotate_bound(a.collider.rotation, world_down, SCALE as int);
        }
        let local_down = a.collider.rotation.rotate(world_down);
        let alignq = crate::angles::rotation_to_align(local_down, contact.normal);
        let align_vec = crate::angles::euler_xyz(alignq);
        let speed: i64 = a.velocity.linear.length();
        let maxlen: i64 = crate::fx::imax(speed, 6500);
        proof {
            lemma_vec_mul_fits(align_vec, a.inverse_mass as int, 4_200, 1_000_000);
            lemma_fmul_bound(align_vec.x as int, a.inverse_mass as int, 4_200, 1_000_000);
            lemma_fmul_bound(align_vec.y as int, a.inverse_mass as int, 4_200, 1_000_000);
            lemma_fmul_bound(align_vec.z as int, a.inverse_mass as int, 4_200, 1_000_000);
        }
        let t1 = align_vec.scaled(a.inverse_mass);
        proof {
            lemma_vec_mul_fits(t1, maxlen as int, 4_200_000, 2_600_000_000);
            lemma_fmul_bound(t1.x as int, maxlen as int, 4_200_000, 2_600_000_000);
            lemma_fmul_bound(t1.y as int, maxlen as int, 4_200_000, 2_600_000_000);
            lemma_fmul_bound(t1.z as int, maxlen as int, 4_200_000, 2_600_000_000);
        }
        let t2 = t1.scaled(maxlen);
        let na = a.velocity.angular.plus(t2);
        a.velocity.angular = na;
    }
    if b.rbt != RigidbodyType::Static {
        apply_linear(b, tf_b, correction, q, contact.normal, temp_vel, contact.a_vel.linear);
    }
}

/// Resolving a contact between two static bodies is a no-op: neither
/// branch of the step touches a static body, whatever the masses say.
pub proof fn lemma_static_pair_resolution_noop(
    a: RigidbodyComponent,
    ta: Transform,
    b: RigidbodyComponent,
    tb: Transform,
    c: ContactInfo,
)
    requires
        a.rbt == RigidbodyType::Static,
        b.rbt == RigidbodyType::Static,
    ensures
        spec_resolve_object(a, ta, b, tb, c) == (a, ta, b, tb),
{
}

} // verus!
