//! Narrow-phase detection: the axis-aligned slab test used for the player
//! and the separating-axis test used between object pairs.
//!
//! Interval conventions are strict on both paths: boxes whose projections
//! merely touch are not disjoint to the slab test (it reports a zero-depth
//! contact), while the separating-axis test treats a zero overlap as a
//! separation and reports no contact.

use vstd::prelude::*;

verus! {

use crate::fx::{SCALE, spec_min, spec_max, imin, imax};
use crate::vec3::{
    Vec3, vec_in, norm_sq, spec_dot, spec_normalized, is_cardinal_unit, lemma_vec_pair_fits,
    lemma_dot_bound,
};
use crate::bodies::{Collider, ContactInfo, Velocity, axes_in, vertices_in};

/// The two boxes' projections are strictly disjoint on some cardinal axis.
pub open spec fn spec_aabb_disjoint(pa: Vec3, ha: Vec3, cb: Vec3, hb: Vec3) -> bool {
    ||| pa.x - ha.x > cb.x + hb.x
    ||| pa.x + ha.x < cb.x - hb.x
    ||| pa.y - ha.y > cb.y + hb.y
    ||| pa.y + ha.y < cb.y - hb.y
    ||| pa.z - ha.z > cb.z + hb.z
    ||| pa.z + ha.z < cb.z - hb.z
}

/// Slab overlap of the two boxes along X.
pub open spec fn spec_overlap_x(pa: Vec3, ha: Vec3, cb: Vec3, hb: Vec3) -> int {
    spec_min((pa.x + ha.x) - (cb.x - hb.x), (cb.x + hb.x) - (pa.x - ha.x))
}

/// Slab overlap of the two boxes along Y.
pub open spec fn spec_overlap_y(pa: Vec3, ha: Vec3, cb: Vec3, hb: Vec3) -> int {
    spec_min((pa.y + ha.y) - (cb.y - hb.y), (cb.y + hb.y) - (pa.y - ha.y))
}

/// Slab overlap of the two boxes along Z.
pub open spec fn spec_overlap_z(pa: Vec3, ha: Vec3, cb: Vec3, hb: Vec3) -> int {
    spec_min((pa.z + ha.z) - (cb.z - hb.z), (cb.z + hb.z) - (pa.z - ha.z))
}

/// The smallest slab overlap and the matching outward cardinal normal,
/// whose sign points from the collider toward the player.
pub open spec fn spec_aabb_axis(pa: Vec3, ha: Vec3, cb: Vec3, hb: Vec3) -> (int, Vec3) {
    let ox = spec_overlap_x(pa, ha, cb, hb);
    let oy = spec_overlap_y(pa, ha, cb, hb);
    let oz = spec_overlap_z(pa, ha, cb, hb);
    if ox < oy && ox < oz {
        (
            ox,
            Vec3 {
                x: if pa.x < cb.x {
                    (-1000i64)
                } else {
                    SCALE
                },
                y: 0,
                z: 0,
            },
        )
    } else if oy < oz {
        (
            oy,
            Vec3 {
                x: 0,
                y: if pa.y < cb.y {
                    (-1000i64)
                } else {
                    SCALE
                },
                z: 0,
            },
        )
    } else {
        (
            oz,
            Vec3 {
                x: 0,
                y: 0,
                z: if pa.z < cb.z {
                    (-1000i64)
                } else {
                    SCALE
                },
            },
        )
    }
}

/// The full contact the slab test reports when the boxes overlap.
pub open spec fn spec_aabb_contact(
    pa: Vec3,
    ha: Vec3,
    pvel: Vec3,
    other: Collider,
    bvel: Velocity,
) -> ContactInfo {
    let d = spec_aabb_axis(pa, ha, other.center, other.half_extents);
    ContactInfo {
        normal: d.1,
        penetration_depth: d.0 as i64,
        contact_point_a: pa,
        contact_point_b: other.center,
        a_vel: Velocity { linear: pvel, angular: Vec3 { x: 0, y: 0, z: 0 } },
        b_vel: bvel,
    }
}

/// Axis-aligned slab test between the player's box and a collider.
///
/// Reports no contact exactly when the boxes' projections are strictly
/// disjoint on some cardinal axis; otherwise the contact carries the
/// smallest slab overlap as depth and the matching signed cardinal normal.
pub fn aabb_player_vs_collider(
    player_position: Vec3,
    player_half_size: Vec3,
    player_velocity: Vec3,
    other: &Collider,
    other_velocity: &Velocity,
) -> (r: Option<ContactInfo>)
    requires
        vec_in(player_position, 1_000_000_000),
        vec_in(player_half_size, 1_000_000_000),
        vec_in(other.center, 1_000_000_000),
        vec_in(other.half_extents, 1_000_000_000),
    ensures
        (r is None) <==> spec_aabb_disjoint(
            player_position,
            player_half_size,
            other.center,
            other.half_extents,
        ),
        r matches Some(ci) ==> ci == spec_aabb_contact(
            player_position,
            player_half_size,
            player_velocity,
            *other,
            *other_velocity,
        ),
        r matches Some(ci) ==> is_cardinal_unit(ci.normal) && 0 <= ci.penetration_depth
            <= 4_000_000_000,
{
    let min_a = Vec3 {
        x: player_position.x - player_half_size.x,
        y: player_position.y - player_half_size.y,
        z: player_position.z - player_half_size.z,
    };
    let max_a = Vec3 {
        x: player_position.x + player_half_size.x,
        y: player_position.y + player_half_size.y,
        z: player_position.z + player_half_size.z,
    };
    let min_b = Vec3 {
        x: other.center.x - other.half_extents.x,
        y: other.center.y - other.half_extents.y,
        z: other.center.z - other.half_extents.z,
    };
    let max_b = Vec3 {
        x: other.center.x + other.half_extents.x,
        y: other.center.y + other.half_extents.y,
        z: other.center.z + other.half_extents.z,
    };
    if (min_a.x > max_b.x || max_a.x < min_b.x) || (min_a.y > max_b.y || max_a.y < min_b.y) || (
    min_a.z > max_b.z || max_a.z < min_b.z) {
        return None;
    }
    let overlap_x: i64 = imin(max_a.x - min_b.x, max_b.x - min_a.x);
    let overlap_y: i64 = imin(max_a.y - min_b.y, max_b.y - min_a.y);
    let overlap_z: i64 = imin(max_a.z - min_b.z, max_b.z - min_a.z);
    let (penetration_depth, normal): (i64, Vec3) = if overlap_x < overlap_y && overlap_x
        < overlap_z {
        (
            overlap_x,
            Vec3 {
                x: if player_position.x < other.center.x {
                    -SCALE
                } else {
                    SCALE
                },
                y: 0,
                z: 0,
            },
        )
    } else if overlap_y < overlap_z {
        (
            overlap_y,
            Vec3 {
                x: 0,
                y: if player_position.y < other.center.y {
                    -SCALE
                } else {
                    SCALE
                },
                z: 0,
            },
        )
    } else {
        (
            overlap_z,
            Vec3 {
                x: 0,
                y: 0,
                z: if player_position.z < other.center.z {
                    -SCALE
                } else {
                    SCALE
                },
            },
        )
    };
    Some(
        ContactInfo {
            normal,
            penetration_depth,
            contact_point_a: player_position,
            a_vel: Velocity { linear: player_velocity, angular: Vec3 { x: 0, y: 0, z: 0 } },
            contact_point_b: other.center,
            b_vel: *other_velocity,
        },
    )
}

/// Projection of corner `i` onto an axis.
pub open spec fn vert_dot(c: Collider, axis: Vec3, i: int) -> int {
    spec_dot(axis, c.vertex_info.vertices[i])
}

/// Least projection among the first `n` corners.
pub open spec fn proj_min(c: Collider, axis: Vec3, n: int) -> int
    decreases n,
{
    if n <= 1 {
        vert_dot(c, axis, 0)
    } else {
        spec_min(proj_min(c, axis, n - 1), vert_dot(c, axis, n - 1))
    }
}

/// Greatest projection among the first `n` corners.
pub open spec fn proj_max(c: Collider, axis: Vec3, n: int) -> int
    decreases n,
{
    if n <= 1 {
        vert_dot(c, axis, 0)
    } else {
        spec_max(proj_max(c, axis, n - 1), vert_dot(c, axis, n - 1))
    }
}

/// Projects all eight cached corners of a collider onto an axis and
/// returns the covered interval.
#[verifier::loop_isolation(false)]
pub fn project_collider(collider: &Collider, axis: Vec3) -> (r: (i64, i64))
    requires
        vec_in(axis, SCALE as int),
        vertices_in(*collider, 14_000_000_000),
    ensures
        r.0 == proj_min(*collider, axis, 8),
        r.1 == proj_max(*collider, axis, 8),
        -42_000_000_000 <= r.0 <= 42_000_000_000,
        -42_000_000_000 <= r.1 <= 42_000_000_000,
{
    let v0 = collider.vertex_info.vertices[0];
    proof {
        lemma_vec_pair_fits(axis, v0, SCALE as int, 14_000_000_000);
        lemma_dot_bound(axis, v0, SCALE as int, 14_000_000_000);
    }
    let d0: i64 = axis.dot(v0);
    let mut mn: i64 = d0;
    let mut mx: i64 = d0;
    let mut i: usize = 1;
    while i < 8
        invariant
            1 <= i <= 8,
            mn == proj_min(*collider, axis, i as int),
            mx == proj_max(*collider, axis, i as int),
            -42_000_000_000 <= mn <= 42_000_000_000,
            -42_000_000_000 <= mx <= 42_000_000_000,
        decreases 8 - i,
    {
        let v = collider.vertex_info.vertices[i];
        proof {
            lemma_vec_pair_fits(axis, v, SCALE as int, 14_000_000_000);
            lemma_dot_bound(axis, v, SCALE as int, 14_000_000_000);
        }
        let d: i64 = axis.dot(v);
        mn = imin(mn, d);
        mx = imax(mx, d);
        i = i + 1;
    }
    (mn, mx)
}

/// Scalar overlap of two projection intervals, clamped at zero.
pub open spec fn spec_overlap_interval(min_a: int, max_a: int, min_b: int, max_b: int) -> int {
    spec_max(0, spec_min(max_a, max_b) - spec_max(min_a, min_b))
}

/// Scalar overlap of two projection intervals, clamped at zero.
pub fn get_overlap(min_a: i64, max_a: i64, min_b: i64, max_b: i64) -> (r: i64)
    requires
        -50_000_000_000 <= min_a <= 50_000_000_000,
        -50_000_000_000 <= max_a <= 50_000_000_000,
        -50_000_000_000 <= min_b <= 50_000_000_000,
        -50_000_000_000 <= max_b <= 50_000_000_000,
    ensures
        r == spec_overlap_interval(min_a as int, max_a as int, min_b as int, max_b as int),
        0 <= r <= 100_000_000_000,
{
    imax(0, imin(max_a, max_b) - imax(min_a, min_b))
}

/// Candidate separating axis `i` of a pair: the first three come from `a`,
/// the last three from `b`.
pub open spec fn cand_axis(a: Collider, b: Collider, i: int) -> Vec3 {
    if i < 3 {
        a.axes[i]
    } else {
        b.axes[i - 3]
    }
}

/// Candidate axis `i`, normalized.
pub open spec fn norm_axis(a: Collider, b: Collider, i: int) -> Vec3 {
    let ax = cand_axis(a, b, i);
    Vec3 {
        x: spec_normalized(ax).0 as i64,
        y: spec_normalized(ax).1 as i64,
        z: spec_normalized(ax).2 as i64,
    }
}

/// The projection overlap of the pair on candidate axis `i`; a degenerate
/// (zero) axis counts as a zero overlap, hence as a separation.
pub open spec fn axis_overlap(a: Collider, b: Collider, i: int) -> int {
    let ax = cand_axis(a, b, i);
    if norm_sq(ax) == 0 {
        0
    } else {
        let n = norm_axis(a, b, i);
        spec_overlap_interval(
            proj_min(a, n, 8),
            proj_max(a, n, 8),
            proj_min(b, n, 8),
            proj_max(b, n, 8),
        )
    }
}

/// Least overlap among the first `n` candidate axes (the whole range when
/// `n` is 6); the starting value is the largest scalar, as the search
/// begins unbounded.
pub open spec fn sat_min_overlap(a: Collider, b: Collider, n: int) -> int
    decreases n,
{
    if n <= 0 {
        i64::MAX as int
    } else {
        spec_min(sat_min_overlap(a, b, n - 1), axis_overlap(a, b, n - 1))
    }
}

/// The first index among the first `n` candidate axes attaining the least
/// overlap.
pub open spec fn sat_argmin(a: Collider, b: Collider, n: int) -> int
    decreases n,
{
    if n <= 1 {
        0
    } else {
        if axis_overlap(a, b, n - 1) < sat_min_overlap(a, b, n - 1) {
            n - 1
        } else {
            sat_argmin(a, b, n - 1)
        }
    }
}

/// The contact the separating-axis test reports when no axis separates
/// the pair: the first least-overlap axis, normalized, with the least
/// overlap as depth.
pub open spec fn spec_sat_contact(
    a: Collider,
    a_vel: Velocity,
    b: Collider,
    b_vel: Velocity,
) -> ContactInfo {
    ContactInfo {
        normal: norm_axis(a, b, sat_argmin(a, b, 6)),
        penetration_depth: sat_min_overlap(a, b, 6) as i64,
        contact_point_a: a.center,
        contact_point_b: b.center,
        a_vel: a_vel,
        b_vel: b_vel,
    }
}

/// Separating-axis test between two oriented boxes.
///
/// Reports no contact exactly when some candidate axis (the six cached
/// world axes of the pair) yields a zero or negative projection overlap;
/// otherwise the contact carries the least overlap across all six axes as
/// depth, and the first axis attaining it, normalized, as normal.
#[verifier::loop_isolation(false)]
pub fn get_collision_info(
    a: &Collider,
    a_vel: &Velocity,
    b: &Collider,
    b_vel: &Velocity,
) -> (r: Option<ContactInfo>)
    requires
        axes_in(*a, 13_000),
        axes_in(*b, 13_000),
        vertices_in(*a, 14_000_000_000),
        vertices_in(*b, 14_000_000_000),
    ensures
        (r is None) <==> (exists|i: int| 0 <= i < 6 && axis_overlap(*a, *b, i) <= 0),
        r matches Some(ci) ==> ci == spec_sat_contact(*a, *a_vel, *b, *b_vel),
        r matches Some(ci) ==> {
            &&& exists|k: int|
                {
                    &&& 0 <= k < 6
                    &&& ci.normal == norm_axis(*a, *b, k)
                    &&& ci.penetration_depth == axis_overlap(*a, *b, k)
                    &&& (forall|j: int|
                        0 <= j < 6 ==> #[trigger] axis_overlap(*a, *b, j) >= axis_overlap(
                            *a,
                            *b,
                            k,
                        ))
                    &&& (forall|j: int|
                        0 <= j < k ==> #[trigger] axis_overlap(*a, *b, j) > axis_overlap(*a, *b, k))
                }
            &&& ci.contact_point_a == a.center
            &&& ci.contact_point_b == b.center
            &&& ci.a_vel == *a_vel
            &&& ci.b_vel == *b_vel
            &&& vec_in(ci.normal, SCALE as int)
            &&& 0 < ci.penetration_depth <= 100_000_000_000
        },
{
    let axes = a.get_axes(b);
    let mut min_overlap: i64 = i64::MAX;
    let mut collision_axis: Vec3 = Vec3 { x: 0, y: 0, z: 0 };
    let ghost mut kk: int = 0;
    let mut i: usize = 0;
    while i < 6
        invariant
            0 <= i <= 6,
            forall|j: int| 0 <= j < i ==> #[trigger] axis_overlap(*a, *b, j) > 0,
            min_overlap == sat_min_overlap(*a, *b, i as int),
            i == 0 ==> min_overlap == i64::MAX,
            i > 0 ==> {
                &&& 0 <= kk < i
                &&& kk == sat_argmin(*a, *b, i as int)
                &&& min_overlap == axis_overlap(*a, *b, kk)
                &&& collision_axis == norm_axis(*a, *b, kk)
                &&& (forall|j: int|
                    0 <= j < i ==> #[trigger] axis_overlap(*a, *b, j) >= min_overlap)
                &&& (forall|j: int| 0 <= j < kk ==> #[trigger] axis_overlap(*a, *b, j)
                    > min_overlap)
                &&& vec_in(collision_axis, SCALE as int)
                &&& 0 < min_overlap <= 100_000_000_000
            },
        decreases 6 - i,
    {
        let ax: Vec3 = axes[i];
        proof {
            assert(ax == cand_axis(*a, *b, i as int));
        }
        if ax.len_sq() == 0 {
            proof {
                assert(axis_overlap(*a, *b, i as int) <= 0);
            }
            return None;
        }
        proof {
            assert(ax.x * ax.x >= 0 && ax.y * ax.y >= 0 && ax.z * ax.z >= 0) by (nonlinear_arith);
        }
        let axn = ax.normalized();
        proof {
            assert(axn == norm_axis(*a, *b, i as int));
        }
        let pa = project_collider(a, axn);
        let pb = project_collider(b, axn);
        let overlap: i64 = get_overlap(pa.0, pa.1, pb.0, pb.1);
        if overlap <= 0 {
            proof {
                assert(axis_overlap(*a, *b, i as int) <= 0);
            }
            return None;
        }
        proof {
            assert(axis_overlap(*a, *b, i as int) == overlap);
        }
        if overlap < min_overlap {
            min_overlap = overlap;
            collision_axis = axn;
            proof {
                kk = i as int;
            }
        }
        i = i + 1;
    }
    Some(
        ContactInfo {
            normal: collision_axis,
            penetration_depth: min_overlap,
            contact_point_a: a.center,
            contact_point_b: b.center,
            a_vel: *a_vel,
            b_vel: *b_vel,
        },
    )
}

} // verus!
