//! The decisions of the ray intersection tests.
//!
//! The host does the arithmetic of a test, the products and quotients that
//! give distances along the ray, and hands the numbers over. What is left
//! is comparison: intersecting the three slab intervals of a box, accepting
//! or rejecting the hit of a triangle, and bounding a set of points.

use vstd::prelude::*;
use crate::scalar::Scalar;

verus! {

/// Bit pattern of the tolerance of the triangle test: the single-precision
/// number nearest to ten to the power of minus eight.
pub const EPSILON_BITS: u32 = 0x322b_cc77;

/// Bit pattern of the negated tolerance of the triangle test.
pub const NEG_EPSILON_BITS: u32 = 0xb22b_cc77;

/// Axis-aligned bounding box.
#[derive(Clone, Copy, Debug)]
pub struct Aabb {
    /// Smallest coordinate on each axis.
    pub min: [Scalar; 3],
    /// Largest coordinate on each axis.
    pub max: [Scalar; 3],
}

/// Distance at which a ray enters a box, given the distances `t` at which
/// it meets the two planes of each of the three slabs: the latest of the
/// three entries.
pub open spec fn slab_entry(t: [Scalar; 6]) -> Scalar {
    t[0].spec_min(t[1]).spec_max(t[2].spec_min(t[3])).spec_max(t[4].spec_min(t[5]))
}

/// Distance at which a ray leaves a box: the earliest of the three exits.
pub open spec fn slab_exit(t: [Scalar; 6]) -> Scalar {
    t[0].spec_max(t[1]).spec_min(t[2].spec_max(t[3])).spec_min(t[4].spec_max(t[5]))
}

/// Whether a ray hits a box: it does not leave before it enters, and it
/// does not leave behind its origin.
pub open spec fn slab_hits(t: [Scalar; 6]) -> bool {
    !(slab_exit(t).spec_lt(Scalar::spec_zero()) || slab_exit(t).spec_lt(slab_entry(t)))
}

/// Intersects the three slab intervals of a box.
///
/// `t[2 k]` and `t[2 k + 1]` are the distances along the ray at which it
/// meets the two planes of the box across axis `k`. Returns the distances
/// at which the ray enters and leaves the box, if it hits it.
pub fn slab_interval(t: &[Scalar; 6]) -> (interval: Option<(Scalar, Scalar)>)
    ensures
        interval is Some <==> slab_hits(*t),
        interval matches Some(pair) ==> pair.0 == slab_entry(*t) && pair.1 == slab_exit(*t),
{
    let tmin = t[0].min(t[1]).max(t[2].min(t[3])).max(t[4].min(t[5]));
    let tmax = t[0].max(t[1]).min(t[2].max(t[3])).min(t[4].max(t[5]));
    if tmax.lt(Scalar::zero()) || tmax.lt(tmin) {
        None
    } else {
        Some((tmin, tmax))
    }
}

/// Whether the distance `s` lies in the slab interval across axis `k`.
pub open spec fn in_slab(t: [Scalar; 6], k: int, s: Scalar) -> bool {
    t[2 * k].spec_min(t[2 * k + 1]).spec_le(s) && s.spec_le(t[2 * k].spec_max(t[2 * k + 1]))
}

/// The slab method is right: where all six distances are numbers, the ray
/// hits the box exactly when some distance that is not negative lies in all
/// three slab intervals, and then the exit distance is such a distance.
pub proof fn lemma_slab_method(t: [Scalar; 6])
    requires
        forall|k: int| 0 <= k < 6 ==> !(#[trigger] t[k]).spec_is_nan(),
    ensures
        slab_hits(t) <==> exists|s: Scalar|
            Scalar::spec_zero().spec_le(s) && in_slab(t, 0, s) && in_slab(t, 1, s) && #[trigger] in_slab(
                t,
                2,
                s,
            ),
        slab_hits(t) ==> {
            &&& in_slab(t, 0, slab_exit(t))
            &&& in_slab(t, 1, slab_exit(t))
            &&& in_slab(t, 2, slab_exit(t))
            &&& slab_entry(t).spec_le(slab_exit(t))
        },
{
    assert(!t[0].spec_is_nan() && !t[1].spec_is_nan() && !t[2].spec_is_nan());
    assert(!t[3].spec_is_nan() && !t[4].spec_is_nan() && !t[5].spec_is_nan());
    if slab_hits(t) {
        assert(in_slab(t, 2, slab_exit(t)));
    }
}

/// Whether the numbers of a triangle test describe a hit in front of the
/// ray's origin.
///
/// `a` is the determinant, `u` and `v` are the barycentric coordinates of
/// the point where the ray meets the plane of the triangle, `u_plus_v` their
/// sum, and `t` the distance along the ray. The ray must not be parallel to
/// the plane, the point must lie inside the triangle, and the distance must
/// exceed the tolerance.
pub open spec fn is_triangle_hit(a: Scalar, u: Scalar, v: Scalar, u_plus_v: Scalar, t: Scalar) -> bool {
    let epsilon = Scalar { bits: EPSILON_BITS };
    let neg_epsilon = Scalar { bits: NEG_EPSILON_BITS };
    &&& !(neg_epsilon.spec_lt(a) && a.spec_lt(epsilon))
    &&& Scalar::spec_zero().spec_le(u) && u.spec_le(Scalar::spec_one())
    &&& !(v.spec_lt(Scalar::spec_zero()) || Scalar::spec_one().spec_lt(u_plus_v))
    &&& epsilon.spec_lt(t)
}

/// Decides a triangle test: the distance `t` where the numbers describe a
/// hit, nothing otherwise.
pub fn triangle_hit(a: Scalar, u: Scalar, v: Scalar, u_plus_v: Scalar, t: Scalar) -> (distance: Option<
    Scalar,
>)
    ensures
        distance == (if is_triangle_hit(a, u, v, u_plus_v, t) {
            Some(t)
        } else {
            None
        }),
{
    let epsilon = Scalar::from_bits(EPSILON_BITS);
    let neg_epsilon = Scalar::from_bits(NEG_EPSILON_BITS);

    // A determinant near zero: the ray is parallel to the triangle
    if neg_epsilon.lt(a) && a.lt(epsilon) {
        return None;
    }
    if !(Scalar::zero().le(u) && u.le(Scalar::one())) {
        return None;
    }
    if v.lt(Scalar::zero()) || Scalar::one().lt(u_plus_v) {
        return None;
    }
    if epsilon.lt(t) {
        Some(t)
    } else {
        None
    }
}

/// An accepted hit lies in front of the origin, at a distance that is a
/// number, and inside the triangle as far as `u` says.
pub proof fn lemma_triangle_hit_is_in_front(a: Scalar, u: Scalar, v: Scalar, u_plus_v: Scalar, t: Scalar)
    requires
        is_triangle_hit(a, u, v, u_plus_v, t),
    ensures
        !t.spec_is_nan(),
        Scalar::spec_zero().spec_lt(t),
        !u.spec_is_nan(),
        !a.spec_same_value(Scalar::spec_zero()),
{
}

/// Smallest coordinate on `axis` of the first `count` of `points`, found by
/// taking the smaller of the running value and each point in turn, starting
/// from positive infinity.
pub open spec fn lowest(points: Seq<[Scalar; 3]>, axis: int, count: int) -> Scalar
    decreases count,
{
    if count <= 0 {
        Scalar::spec_infinity()
    } else {
        lowest(points, axis, count - 1).spec_min(points[count - 1][axis])
    }
}

/// Largest coordinate on `axis` of the first `count` of `points`, starting
/// from negative infinity.
pub open spec fn highest(points: Seq<[Scalar; 3]>, axis: int, count: int) -> Scalar
    decreases count,
{
    if count <= 0 {
        Scalar::spec_neg_infinity()
    } else {
        highest(points, axis, count - 1).spec_max(points[count - 1][axis])
    }
}

/// The smallest axis-aligned box around `points`.
pub fn bounding_box(points: &Vec<[Scalar; 3]>) -> (aabb: Aabb)
    ensures
        forall|axis: int|
            0 <= axis < 3 ==> #[trigger] aabb.min[axis] == lowest(points@, axis, points@.len() as int),
        forall|axis: int|
            0 <= axis < 3 ==> #[trigger] aabb.max[axis] == highest(points@, axis, points@.len() as int),
{
    let mut min: [Scalar; 3] = [Scalar::infinity(), Scalar::infinity(), Scalar::infinity()];
    let mut max: [Scalar; 3] = [Scalar::neg_infinity(), Scalar::neg_infinity(), Scalar::neg_infinity()];
    let mut index: usize = 0;
    while index < points.len()
        invariant
            index <= points@.len(),
            forall|axis: int| 0 <= axis < 3 ==> #[trigger] min[axis] == lowest(points@, axis, index as int),
            forall|axis: int| 0 <= axis < 3 ==> #[trigger] max[axis] == highest(points@, axis, index as int),
        decreases points@.len() - index,
    {
        let point = points[index];
        let mut axis: usize = 0;
        while axis < 3
            invariant
                axis <= 3,
                index < points@.len(),
                point == points@[index as int],
                forall|a: int|
                    0 <= a < axis ==> #[trigger] min[a] == lowest(points@, a, index as int + 1),
                forall|a: int|
                    axis <= a < 3 ==> #[trigger] min[a] == lowest(points@, a, index as int),
                forall|a: int|
                    0 <= a < axis ==> #[trigger] max[a] == highest(points@, a, index as int + 1),
                forall|a: int|
                    axis <= a < 3 ==> #[trigger] max[a] == highest(points@, a, index as int),
            decreases 3 - axis,
        {
            min[axis] = min[axis].min(point[axis]);
            max[axis] = max[axis].max(point[axis]);
            axis = axis + 1;
        }
        index = index + 1;
    }
    Aabb { min, max }
}

/// The box bounds its points: where every coordinate is a number, each of
/// the first `count` points lies between the lowest and the highest on
/// every axis.
pub proof fn lemma_box_bounds_points(points: Seq<[Scalar; 3]>, axis: int, count: int, i: int)
    requires
        0 <= axis < 3,
        0 <= i < count <= points.len(),
        forall|p: int| 0 <= p < points.len() ==> !(#[trigger] points[p])[axis].spec_is_nan(),
    ensures
        !lowest(points, axis, count).spec_is_nan(),
        !highest(points, axis, count).spec_is_nan(),
        lowest(points, axis, count).spec_le(points[i][axis]),
        points[i][axis].spec_le(highest(points, axis, count)),
    decreases count,
{
    assert(!points[count - 1][axis].spec_is_nan());
    if count > 1 {
        lemma_box_bounds_points(points, axis, count - 1, if i < count - 1 {
            i
        } else {
            0
        });
    }
}

/// The box is tight: around one point or more whose coordinates are
/// numbers, the lowest and the highest on every axis are coordinates of
/// points.
pub proof fn lemma_box_is_tight(points: Seq<[Scalar; 3]>, axis: int, count: int)
    requires
        0 <= axis < 3,
        0 < count <= points.len(),
        forall|p: int| 0 <= p < points.len() ==> !(#[trigger] points[p])[axis].spec_is_nan(),
    ensures
        exists|i: int| 0 <= i < count && lowest(points, axis, count) == (#[trigger] points[i])[axis],
        exists|i: int| 0 <= i < count && highest(points, axis, count) == (#[trigger] points[i])[axis],
    decreases count,
{
    assert(!points[count - 1][axis].spec_is_nan());
    if count > 1 {
        lemma_box_is_tight(points, axis, count - 1);
        let low = choose|i: int|
            0 <= i < count - 1 && lowest(points, axis, count - 1) == (#[trigger] points[i])[axis];
        let high = choose|i: int|
            0 <= i < count - 1 && highest(points, axis, count - 1) == (#[trigger] points[i])[axis];
        if lowest(points, axis, count) == points[count - 1][axis] {
        } else {
            assert(lowest(points, axis, count) == points[low][axis]);
        }
        if highest(points, axis, count) == points[count - 1][axis] {
        } else {
            assert(highest(points, axis, count) == points[high][axis]);
        }
    } else {
        assert(lowest(points, axis, 0) == Scalar::spec_infinity());
        assert(highest(points, axis, 0) == Scalar::spec_neg_infinity());
        assert(lowest(points, axis, 1) == points[0][axis]);
        assert(highest(points, axis, 1) == points[0][axis]);
    }
}

} // verus!
