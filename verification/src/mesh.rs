//! The unit cube that every sticker is drawn and hit-tested as.
//!
//! The cube has eight corners at `(±1, ±1, ±1)` and six sides of two
//! triangles each. A triangle is given by the indices of its three corners,
//! so a host that has transformed the eight corners once can test all twelve
//! triangles without transforming anything twice.

use vstd::prelude::*;

verus! {

/// Number of corners of the cube.
pub const CORNER_COUNT: usize = 8;

/// Number of triangles of the cube's surface.
pub const TRIANGLE_COUNT: usize = 12;

/// Number of sides of the cube.
pub const SIDE_COUNT: usize = 6;

/// The eight corners of the cube.
pub const CUBE_CORNERS: [[i32; 3]; 8] = [
    [-1, -1, -1],
    [1, -1, -1],
    [1, 1, -1],
    [-1, 1, -1],
    [-1, -1, 1],
    [1, -1, 1],
    [1, 1, 1],
    [-1, 1, 1],
];

/// Corner indices of the twelve triangles, three per triangle, two
/// triangles per side; the sides come in the order front, right, back,
/// left, top, bottom.
pub const TRIANGLE_CORNERS: [usize; 36] = [
    0, 1, 2, 2, 3, 0,
    1, 5, 6, 6, 2, 1,
    5, 4, 7, 7, 6, 5,
    4, 0, 3, 3, 7, 4,
    3, 2, 6, 6, 7, 3,
    4, 5, 1, 1, 0, 4,
];

/// The 36 vertices of the twelve triangles, written out.
pub const CUBE_VERTICES: [[i32; 3]; 36] = [
    [-1, -1, -1], [1, -1, -1], [1, 1, -1], [1, 1, -1], [-1, 1, -1], [-1, -1, -1],
    [1, -1, -1], [1, -1, 1], [1, 1, 1], [1, 1, 1], [1, 1, -1], [1, -1, -1],
    [1, -1, 1], [-1, -1, 1], [-1, 1, 1], [-1, 1, 1], [1, 1, 1], [1, -1, 1],
    [-1, -1, 1], [-1, -1, -1], [-1, 1, -1], [-1, 1, -1], [-1, 1, 1], [-1, -1, 1],
    [-1, 1, -1], [1, 1, -1], [1, 1, 1], [1, 1, 1], [-1, 1, 1], [-1, 1, -1],
    [-1, -1, 1], [1, -1, 1], [1, -1, -1], [1, -1, -1], [-1, -1, -1], [-1, -1, 1],
];

/// Vertex order of one cube before any winding correction: the identity.
pub const BASE_INDICES: [u16; 36] = [
    0, 1, 2, 3, 4, 5,
    6, 7, 8, 9, 10, 11,
    12, 13, 14, 15, 16, 17,
    18, 19, 20, 21, 22, 23,
    24, 25, 26, 27, 28, 29,
    30, 31, 32, 33, 34, 35,
];

/// Axis that is constant on each side of the cube (0 = X, 1 = Y, 2 = Z).
pub const SIDE_AXES: [usize; 6] = [2, 0, 2, 0, 1, 1];

/// Value of the constant coordinate on each side of the cube.
pub const SIDE_SIGNS: [i32; 6] = [-1, 1, 1, -1, 1, -1];

/// Whether corner `corner` lies on side `side` of the cube.
pub open spec fn corner_on_side(corner: int, side: int) -> bool {
    CUBE_CORNERS[corner][SIDE_AXES[side] as int] == SIDE_SIGNS[side]
}

/// Whether `corner` is one of the three corners of `triangle`.
pub open spec fn triangle_has_corner(triangle: int, corner: int) -> bool {
    ||| TRIANGLE_CORNERS[3 * triangle] == corner
    ||| TRIANGLE_CORNERS[3 * triangle + 1] == corner
    ||| TRIANGLE_CORNERS[3 * triangle + 2] == corner
}

/// The three corners of triangle `triangle`, in winding order.
pub fn triangle_corners(triangle: usize) -> (corners: [usize; 3])
    requires
        triangle < TRIANGLE_COUNT,
    ensures
        forall|k: int| 0 <= k < 3 ==> corners[k] == TRIANGLE_CORNERS[3 * triangle + k],
        forall|k: int| 0 <= k < 3 ==> corners[k] < CORNER_COUNT,
        corners[0] != corners[1] && corners[1] != corners[2] && corners[0] != corners[2],
        forall|k: int| 0 <= k < 3 ==> corner_on_side(corners[k] as int, triangle as int / 2),
{
    let first = 3 * triangle;
    proof {
        lemma_triangles_are_proper(triangle as int);
        lemma_triangle_on_side(triangle as int);
    }
    [TRIANGLE_CORNERS[first], TRIANGLE_CORNERS[first + 1], TRIANGLE_CORNERS[first + 2]]
}

/// Vertex `index` of the written-out triangle list.
pub fn cube_vertex(index: usize) -> (vertex: [i32; 3])
    requires
        index < 36,
    ensures
        vertex == CUBE_VERTICES[index as int],
        forall|axis: int|
            0 <= axis < 3 ==> vertex[axis] == CUBE_CORNERS[TRIANGLE_CORNERS[index as int] as int][axis],
{
    proof {
        lemma_vertices_expand_corners(index as int);
    }
    CUBE_VERTICES[index]
}

/// Every triangle has three different corners of the cube.
pub proof fn lemma_triangles_are_proper(triangle: int)
    requires
        0 <= triangle < TRIANGLE_COUNT,
    ensures
        forall|k: int| 0 <= k < 3 ==> 0 <= #[trigger] TRIANGLE_CORNERS[3 * triangle + k] < CORNER_COUNT,
        TRIANGLE_CORNERS[3 * triangle] != TRIANGLE_CORNERS[3 * triangle + 1],
        TRIANGLE_CORNERS[3 * triangle + 1] != TRIANGLE_CORNERS[3 * triangle + 2],
        TRIANGLE_CORNERS[3 * triangle] != TRIANGLE_CORNERS[3 * triangle + 2],
{
}

/// Every triangle lies in one side of the cube: triangles `2 s` and
/// `2 s + 1` have all their corners on side `s`.
pub proof fn lemma_triangle_on_side(triangle: int)
    requires
        0 <= triangle < TRIANGLE_COUNT,
    ensures
        forall|k: int|
            0 <= k < 3 ==> corner_on_side(
                #[trigger] TRIANGLE_CORNERS[3 * triangle + k] as int,
                triangle / 2,
            ),
{
}

/// The two triangles of a side cover it: a corner lies on side `side`
/// exactly when one of the two triangles of that side has it.
pub proof fn lemma_side_is_covered(side: int, corner: int)
    requires
        0 <= side < SIDE_COUNT,
        0 <= corner < CORNER_COUNT,
    ensures
        corner_on_side(corner, side) <==> (triangle_has_corner(2 * side, corner)
            || triangle_has_corner(2 * side + 1, corner)),
{
}

/// The written-out vertex list is the corner table read through the
/// triangle table.
pub proof fn lemma_vertices_expand_corners(index: int)
    requires
        0 <= index < 36,
    ensures
        forall|axis: int|
            0 <= axis < 3 ==> #[trigger] CUBE_VERTICES[index][axis]
                == CUBE_CORNERS[TRIANGLE_CORNERS[index] as int][axis],
{
}

/// The corners are the eight sign patterns: every coordinate is `1` or
/// `-1`, and two different corners differ on some axis.
pub proof fn lemma_corners_are_distinct(a: int, b: int)
    requires
        0 <= a < CORNER_COUNT,
        0 <= b < CORNER_COUNT,
        a != b,
    ensures
        forall|axis: int|
            0 <= axis < 3 ==> (#[trigger] CUBE_CORNERS[a][axis] == 1 || CUBE_CORNERS[a][axis] == -1),
        exists|axis: int| 0 <= axis < 3 && #[trigger] CUBE_CORNERS[a][axis] != CUBE_CORNERS[b][axis],
{
    if CUBE_CORNERS[a][0] != CUBE_CORNERS[b][0] {
    } else if CUBE_CORNERS[a][1] != CUBE_CORNERS[b][1] {
    } else {
        assert(CUBE_CORNERS[a][2] != CUBE_CORNERS[b][2]);
    }
}

/// Vertex index that a triangle list holds at position `k` of triangle `t`,
/// where the triangles repeat the twelve of the cube and a flipped triangle
/// has its second and third vertex exchanged.
pub open spec fn wound_index(t: int, k: int, flipped: bool) -> int {
    let first = 3 * (t % 12);
    if k == 0 || !flipped {
        BASE_INDICES[first + k] as int
    } else {
        BASE_INDICES[first + 3 - k] as int
    }
}

/// The index list of a run of cubes after winding correction.
///
/// `flipped[t]` tells whether triangle `t` came out facing inward once
/// transformed. The list holds three vertex indices per triangle, the
/// triangles cycling through the twelve of the cube; a flipped triangle has
/// its second and third vertex exchanged, which turns it around.
pub fn wind_triangles(flipped: &Vec<bool>) -> (indices: Vec<u16>)
    ensures
        indices@.len() == 3 * flipped@.len(),
        forall|t: int, k: int|
            0 <= t < flipped@.len() && 0 <= k < 3 ==> #[trigger] indices@[3 * t + k] == wound_index(
                t,
                k,
                flipped@[t],
            ),
{
    let mut indices: Vec<u16> = Vec::new();
    let mut triangle: usize = 0;
    while triangle < flipped.len()
        invariant
            triangle <= flipped@.len(),
            indices@.len() == 3 * triangle,
            forall|t: int, k: int|
                0 <= t < triangle && 0 <= k < 3 ==> #[trigger] indices@[3 * t + k] == wound_index(
                    t,
                    k,
                    flipped@[t],
                ),
        decreases flipped@.len() - triangle,
    {
        let first = 3 * (triangle % 12);
        let ghost before = indices@;
        indices.push(BASE_INDICES[first]);
        if flipped[triangle] {
            indices.push(BASE_INDICES[first + 2]);
            indices.push(BASE_INDICES[first + 1]);
        } else {
            indices.push(BASE_INDICES[first + 1]);
            indices.push(BASE_INDICES[first + 2]);
        }
        proof {
            assert forall|t: int, k: int| 0 <= t < triangle + 1 && 0 <= k < 3 implies #[trigger] indices@[3
                * t + k] == wound_index(t, k, flipped@[t]) by {
                if t < triangle {
                    assert(indices@[3 * t + k] == before[3 * t + k]);
                }
            }
        }
        triangle = triangle + 1;
    }
    indices
}

/// Winding correction keeps every triangle on its three vertices: whether
/// flipped or not, triangle `t` of the list uses the vertices `3 (t % 12)`,
/// `3 (t % 12) + 1` and `3 (t % 12) + 2`, each once, and starts with the first.
pub proof fn lemma_winding_keeps_vertices(t: int, flipped: bool)
    requires
        0 <= t,
    ensures
        wound_index(t, 0, flipped) == 3 * (t % 12),
        wound_index(t, 1, flipped) + wound_index(t, 2, flipped) == 6 * (t % 12) + 3,
        wound_index(t, 1, flipped) == 3 * (t % 12) + (if flipped {
            2int
        } else {
            1int
        }),
{
}

} // verus!
