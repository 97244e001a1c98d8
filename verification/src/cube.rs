//! The eight cubic cells of the tesseract and their sticker grids.
//!
//! Every coordinate is an integer numerator over the common denominator
//! [`LATTICE_DENOMINATOR`]: a stored `n` stands for the real number `n / 3`.
//! A cell centre at `±1` is stored as `±3`, a sticker offset of `±2/3` as
//! `±2`. The solved puzzle is therefore represented exactly, and a host
//! obtains the floating-point coordinate with a single division.

use vstd::prelude::*;

verus! {

/// Denominator shared by every lattice coordinate.
pub const LATTICE_DENOMINATOR: i32 = 3;

/// Number of cubic cells ("faces") of the tesseract.
pub const FACE_COUNT: usize = 8;

/// Number of stickers along one edge of a cell.
pub const GRID_SIZE: usize = 3;

/// Number of stickers in one cell.
pub const STICKERS_PER_FACE: usize = 27;

/// Number of stickers of the whole puzzle.
pub const STICKER_COUNT: usize = 216;

/// Centres of the eight cells, in lattice units.
pub const FACE_CENTERS: [[i32; 4]; 8] = [
    [0, 0, 0, -3],
    [0, 0, -3, 0],
    [0, -3, 0, 0],
    [-3, 0, 0, 0],
    [3, 0, 0, 0],
    [0, 3, 0, 0],
    [0, 0, 3, 0],
    [0, 0, 0, 3],
];

/// Axis that is pinned for each cell (0 = X, 1 = Y, 2 = Z, 3 = W).
pub const FIXED_DIMS: [usize; 8] = [3, 2, 1, 0, 0, 1, 2, 3];

/// Colours of the eight cells.
#[derive(Clone, Copy, Debug, PartialEq, Eq, Structural)]
pub enum Color {
    White,
    Yellow,
    Blue,
    Green,
    Red,
    Orange,
    Purple,
    Brown,
}

/// One coloured unit of the surface, at a fixed lattice position.
#[derive(Clone, Copy, Debug)]
pub struct Sticker {
    /// Colour of this sticker.
    pub color: Color,
    /// Centre of the sticker, in lattice units.
    pub position: [i32; 4],
}

/// One cubic cell: a 3x3x3 arrangement of stickers around a centre.
#[derive(Clone, Debug)]
pub struct Face {
    /// The 27 stickers, ordered by their grid indices `(i, j, k)`, `k` fastest.
    pub stickers: Vec<Sticker>,
    /// Centre of the cell, in lattice units.
    pub center: [i32; 4],
}

/// The whole tesseract in its solved arrangement.
#[derive(Clone, Debug)]
pub struct Hypercube {
    /// The eight cells, in the order of [`FACE_CENTERS`].
    pub faces: Vec<Face>,
}

/// Colour of cell `face_id` in the solved puzzle.
pub open spec fn face_color(face_id: int) -> Color {
    if face_id == 0 {
        Color::White
    } else if face_id == 1 {
        Color::Yellow
    } else if face_id == 2 {
        Color::Blue
    } else if face_id == 3 {
        Color::Green
    } else if face_id == 4 {
        Color::Red
    } else if face_id == 5 {
        Color::Orange
    } else if face_id == 6 {
        Color::Purple
    } else {
        Color::Brown
    }
}

/// The `slot`-th axis, in ascending order, among the three axes other than `fixed_dim`.
pub open spec fn free_axis(fixed_dim: int, slot: int) -> int {
    if slot < fixed_dim {
        slot
    } else {
        slot + 1
    }
}

/// Position of `axis` among the three axes other than `fixed_dim`.
pub open spec fn axis_slot(fixed_dim: int, axis: int) -> int {
    if axis < fixed_dim {
        axis
    } else {
        axis - 1
    }
}

/// Offset from the cell centre of grid index 0, 1 or 2: `-2/3`, `0` or `+2/3`.
pub open spec fn grid_offset(index: int) -> int {
    2 * (index - 1)
}

/// Grid index along free-axis `slot` of the sticker stored at position `n` of a cell.
pub open spec fn grid_index(n: int, slot: int) -> int {
    if slot == 0 {
        n / 9
    } else if slot == 1 {
        (n / 3) % 3
    } else {
        n % 3
    }
}

/// Coordinate on `axis` of the `n`-th sticker of a cell with the given centre and pinned axis.
pub open spec fn grid_coord(center: [i32; 4], fixed_dim: int, n: int, axis: int) -> int {
    if axis == fixed_dim {
        center[axis] as int
    } else {
        center[axis] + grid_offset(grid_index(n, axis_slot(fixed_dim, axis)))
    }
}

/// The three axes other than `fixed_dim`, in ascending order.
pub fn free_axes(fixed_dim: usize) -> (axes: [usize; 3])
    requires
        fixed_dim < 4,
    ensures
        forall|slot: int| 0 <= slot < 3 ==> axes[slot] == free_axis(fixed_dim as int, slot),
{
    let mut axes: [usize; 3] = [0, 1, 2];
    let mut slot: usize = 0;
    let mut axis: usize = 0;
    while axis < 4
        invariant
            fixed_dim < 4,
            axis <= 4,
            slot == axis_count_before(fixed_dim as int, axis as int),
            forall|s: int| 0 <= s < slot ==> axes[s] == free_axis(fixed_dim as int, s),
        decreases 4 - axis,
    {
        if axis != fixed_dim {
            axes[slot] = axis;
            slot = slot + 1;
        }
        axis = axis + 1;
    }
    axes
}

/// Number of free axes below `axis`.
pub open spec fn axis_count_before(fixed_dim: int, axis: int) -> int {
    if axis <= fixed_dim {
        axis
    } else {
        axis - 1
    }
}

impl Color {
    /// Red, green, blue and alpha of the colour, in hundredths of full intensity.
    pub open spec fn spec_rgba(self) -> Seq<int> {
        match self {
            Color::White => seq![100, 100, 100, 100],
            Color::Yellow => seq![100, 100, 0, 100],
            Color::Blue => seq![10, 10, 100, 100],
            Color::Green => seq![0, 100, 0, 100],
            Color::Red => seq![100, 0, 0, 100],
            Color::Orange => seq![100, 50, 0, 100],
            Color::Purple => seq![0, 50, 100, 100],
            Color::Brown => seq![50, 25, 0, 100],
        }
    }

    /// Red, green, blue and alpha of the colour, in hundredths of full intensity.
    pub fn rgba(self) -> (channels: [u8; 4])
        ensures
            channels@.len() == 4,
            forall|c: int| 0 <= c < 4 ==> channels[c] == self.spec_rgba()[c],
    {
        match self {
            Color::White => [100, 100, 100, 100],
            Color::Yellow => [100, 100, 0, 100],
            Color::Blue => [10, 10, 100, 100],
            Color::Green => [0, 100, 0, 100],
            Color::Red => [100, 0, 0, 100],
            Color::Orange => [100, 50, 0, 100],
            Color::Purple => [0, 50, 100, 100],
            Color::Brown => [50, 25, 0, 100],
        }
    }
}

/// Whether a cell centre leaves room for the sticker offsets on every axis.
pub open spec fn fits_grid(center: [i32; 4]) -> bool {
    forall|axis: int| 0 <= axis < 4 ==> i32::MIN + 2 <= #[trigger] center[axis] <= i32::MAX - 2
}

/// Whether `stickers` are the first stickers, in storage order, of the grid
/// of colour `color` around `center` with `fixed_dim` as the pinned axis.
pub open spec fn is_grid_prefix(
    stickers: Seq<Sticker>,
    center: [i32; 4],
    color: Color,
    fixed_dim: int,
) -> bool {
    &&& forall|n: int| 0 <= n < stickers.len() ==> (#[trigger] stickers[n]).color == color
    &&& forall|n: int, axis: int|
        0 <= n < stickers.len() && 0 <= axis < 4 ==> #[trigger] stickers[n].position[axis] == grid_coord(
            center,
            fixed_dim,
            n,
            axis,
        )
}

impl Face {
    /// Whether the stickers form the 3x3x3 grid of colour `color` around the
    /// centre of this cell, with `fixed_dim` as the pinned axis.
    pub open spec fn is_grid(&self, color: Color, fixed_dim: int) -> bool {
        &&& self.stickers@.len() == STICKERS_PER_FACE
        &&& is_grid_prefix(self.stickers@, self.center, color, fixed_dim)
    }

    /// Builds the cell around `face_center` whose axis `fixed_dim` is pinned,
    /// with every sticker of colour `center_color`.
    ///
    /// The sticker with grid indices `(i, j, k)` is stored at position
    /// `9 i + 3 j + k`; its three offsets go to the free axes in ascending order.
    pub fn new(center_color: Color, face_center: [i32; 4], fixed_dim: usize) -> (face: Face)
        requires
            fixed_dim < 4,
            fits_grid(face_center),
        ensures
            face.center == face_center,
            face.is_grid(center_color, fixed_dim as int),
    {
        let mut stickers: Vec<Sticker> = Vec::with_capacity(27);
        let mut i: usize = 0;
        while i < 3
            invariant
                fixed_dim < 4,
                fits_grid(face_center),
                i <= 3,
                stickers@.len() == 9 * i,
                is_grid_prefix(stickers@, face_center, center_color, fixed_dim as int),
            decreases 3 - i,
        {
            let mut j: usize = 0;
            while j < 3
                invariant
                    fixed_dim < 4,
                    fits_grid(face_center),
                    i < 3,
                    j <= 3,
                    stickers@.len() == 9 * i + 3 * j,
                    is_grid_prefix(stickers@, face_center, center_color, fixed_dim as int),
                decreases 3 - j,
            {
                let mut k: usize = 0;
                while k < 3
                    invariant
                        fixed_dim < 4,
                        fits_grid(face_center),
                        i < 3,
                        j < 3,
                        k <= 3,
                        stickers@.len() == 9 * i + 3 * j + k,
                        is_grid_prefix(stickers@, face_center, center_color, fixed_dim as int),
                    decreases 3 - k,
                {
                    let position = place_on_grid(face_center, fixed_dim, [i, j, k]);
                    proof {
                        let n = 9 * i + 3 * j + k;
                        assert(grid_index(n, 0) == i);
                        assert(grid_index(n, 1) == j);
                        assert(grid_index(n, 2) == k);
                    }
                    stickers.push(Sticker { color: center_color, position });
                    k = k + 1;
                }
                j = j + 1;
            }
            i = i + 1;
        }
        Face { stickers, center: face_center }
    }
}

/// Position of the sticker with the three grid `indices` in the cell around
/// `center` whose axis `fixed_dim` is pinned: each index is turned into its
/// offset and added on the free axes, in ascending order of axis.
pub fn place_on_grid(center: [i32; 4], fixed_dim: usize, indices: [usize; 3]) -> (position: [i32; 4])
    requires
        fixed_dim < 4,
        forall|slot: int| 0 <= slot < 3 ==> #[trigger] indices[slot] < GRID_SIZE,
        fits_grid(center),
    ensures
        position[fixed_dim as int] == center[fixed_dim as int],
        forall|axis: int|
            0 <= axis < 4 && axis != fixed_dim ==> #[trigger] position[axis] == center[axis]
                + grid_offset(indices[axis_slot(fixed_dim as int, axis)] as int),
{
    let mut position = center;
    let mut coord_idx: usize = 0;
    let mut dim: usize = 0;
    while dim < 4
        invariant
            fixed_dim < 4,
            fits_grid(center),
            dim <= 4,
            coord_idx == axis_count_before(fixed_dim as int, dim as int),
            forall|slot: int| 0 <= slot < 3 ==> #[trigger] indices[slot] < GRID_SIZE,
            forall|axis: int| dim <= axis < 4 ==> #[trigger] position[axis] == center[axis],
            dim > fixed_dim ==> position[fixed_dim as int] == center[fixed_dim as int],
            forall|axis: int|
                0 <= axis < dim && axis != fixed_dim ==> #[trigger] position[axis] == center[axis]
                    + grid_offset(indices[axis_slot(fixed_dim as int, axis)] as int),
        decreases 4 - dim,
    {
        if dim != fixed_dim {
            let index: i32 = match indices[coord_idx] {
                0 => 0,
                1 => 1,
                _ => 2,
            };
            position[dim] = position[dim] + (index - 1) * 2;
            coord_idx = coord_idx + 1;
        }
        dim = dim + 1;
    }
    position
}

impl Hypercube {
    /// Whether this is the solved tesseract: eight cells, cell `f` centred at
    /// `FACE_CENTERS[f]`, pinned on axis `FIXED_DIMS[f]` and holding the
    /// full sticker grid in the colour of that cell.
    pub open spec fn well_formed(&self) -> bool {
        &&& self.faces@.len() == FACE_COUNT
        &&& forall|f: int|
            0 <= f < FACE_COUNT ==> {
                &&& (#[trigger] self.faces@[f]).center == FACE_CENTERS[f]
                &&& self.faces@[f].is_grid(face_color(f), FIXED_DIMS[f] as int)
            }
    }

    /// Builds the tesseract in its solved arrangement.
    pub fn new() -> (cube: Hypercube)
        ensures
            cube.well_formed(),
            cube.faces@.len() == 8,
            forall|f: int| 0 <= f < 8 ==> (#[trigger] cube.faces@[f]).stickers@.len() == 27,
    {
        let colors: [Color; 8] = [
            Color::White,
            Color::Yellow,
            Color::Blue,
            Color::Green,
            Color::Red,
            Color::Orange,
            Color::Purple,
            Color::Brown,
        ];
        let mut faces: Vec<Face> = Vec::with_capacity(8);
        let mut face_id: usize = 0;
        while face_id < 8
            invariant
                face_id <= 8,
                faces@.len() == face_id,
                forall|f: int| 0 <= f < 8 ==> #[trigger] colors[f] == face_color(f),
                forall|f: int|
                    0 <= f < face_id ==> {
                        &&& (#[trigger] faces@[f]).center == FACE_CENTERS[f]
                        &&& faces@[f].is_grid(face_color(f), FIXED_DIMS[f] as int)
                    },
            decreases 8 - face_id,
        {
            let face = Face::new(colors[face_id], FACE_CENTERS[face_id], FIXED_DIMS[face_id]);
            faces.push(face);
            face_id = face_id + 1;
        }
        Hypercube { faces }
    }
}

/// Cells `f` and `7 - f` are opposite: they are pinned on the same axis, one
/// at `-1` and the other at `+1`, and their centres are each other's negative.
pub proof fn lemma_opposite_faces(f: int)
    requires
        0 <= f < FACE_COUNT,
    ensures
        FIXED_DIMS[7 - f] == FIXED_DIMS[f],
        forall|axis: int| 0 <= axis < 4 ==> #[trigger] FACE_CENTERS[7 - f][axis] == -FACE_CENTERS[f][axis],
        forall|axis: int|
            0 <= axis < 4 && axis != FIXED_DIMS[f] ==> #[trigger] FACE_CENTERS[f][axis] == 0,
        FACE_CENTERS[f][FIXED_DIMS[f] as int] == (if f < 4 {
            -3int
        } else {
            3int
        }),
{
}

/// The free axes of a cell are the three axes other than the pinned one, in
/// ascending order, and `axis_slot` numbers them.
pub proof fn lemma_free_axes_are_the_other_axes(fixed_dim: int)
    requires
        0 <= fixed_dim < 4,
    ensures
        forall|slot: int|
            0 <= slot < 3 ==> {
                &&& 0 <= #[trigger] free_axis(fixed_dim, slot) < 4
                &&& free_axis(fixed_dim, slot) != fixed_dim
                &&& axis_slot(fixed_dim, free_axis(fixed_dim, slot)) == slot
            },
        free_axis(fixed_dim, 0) < free_axis(fixed_dim, 1) < free_axis(fixed_dim, 2),
        forall|axis: int|
            0 <= axis < 4 && axis != fixed_dim ==> {
                &&& 0 <= #[trigger] axis_slot(fixed_dim, axis) < 3
                &&& free_axis(fixed_dim, axis_slot(fixed_dim, axis)) == axis
            },
{
}

/// Number of stickers held by a sequence of cells.
pub open spec fn sticker_total(faces: Seq<Face>) -> nat
    decreases faces.len(),
{
    if faces.len() == 0 {
        0
    } else {
        sticker_total(faces.drop_last()) + faces.last().stickers@.len()
    }
}

/// Cells that hold 27 stickers each hold `27 * len` stickers together.
pub proof fn lemma_sticker_total_of_full_faces(faces: Seq<Face>)
    requires
        forall|f: int| 0 <= f < faces.len() ==> (#[trigger] faces[f]).stickers@.len() == 27,
    ensures
        sticker_total(faces) == 27 * faces.len(),
    decreases faces.len(),
{
    if faces.len() > 0 {
        lemma_sticker_total_of_full_faces(faces.drop_last());
    }
}

/// The solved tesseract has 8 cells of 27 stickers, 216 stickers in all.
pub proof fn lemma_sticker_count(cube: Hypercube)
    requires
        cube.well_formed(),
    ensures
        cube.faces@.len() == 8,
        forall|f: int| 0 <= f < 8 ==> (#[trigger] cube.faces@[f]).stickers@.len() == 27,
        sticker_total(cube.faces@) == STICKER_COUNT,
{
    lemma_sticker_total_of_full_faces(cube.faces@);
}

/// Every sticker of the solved tesseract sits on the lattice of its cell:
/// on the pinned axis it has the coordinate of the cell centre, which is `+1`
/// or `-1` (3 or -3 lattice units), and on each free axis it is at `-2/3`,
/// `0` or `+2/3` (-2, 0 or 2 lattice units).
pub proof fn lemma_sticker_on_lattice(cube: Hypercube, f: int, n: int)
    requires
        cube.well_formed(),
        0 <= f < FACE_COUNT,
        0 <= n < STICKERS_PER_FACE,
    ensures
        0 <= FIXED_DIMS[f] < 4,
        cube.faces@[f].stickers@[n].color == face_color(f),
        cube.faces@[f].stickers@[n].position[FIXED_DIMS[f] as int] == FACE_CENTERS[f][FIXED_DIMS[f] as int],
        FACE_CENTERS[f][FIXED_DIMS[f] as int] == 3 || FACE_CENTERS[f][FIXED_DIMS[f] as int] == -3,
        forall|axis: int|
            0 <= axis < 4 && axis != FIXED_DIMS[f] ==> {
                let c = #[trigger] cube.faces@[f].stickers@[n].position[axis];
                c == -2 || c == 0 || c == 2
            },
{
    let face = cube.faces@[f];
    assert(face.is_grid(face_color(f), FIXED_DIMS[f] as int));
    let d = FIXED_DIMS[f] as int;
    assert forall|axis: int| 0 <= axis < 4 && axis != d implies {
        let c = #[trigger] face.stickers@[n].position[axis];
        c == -2 || c == 0 || c == 2
    } by {
        assert(face.stickers@[n].position[axis] == grid_coord(face.center, d, n, axis));
        let g = grid_index(n, axis_slot(d, axis));
        assert(0 <= g < 3);
        assert(FACE_CENTERS[f][axis] == 0);
    }
    assert(face.stickers@[n].position[d] == grid_coord(face.center, d, n, d));
}

/// The three grid indices of a storage position determine it.
pub proof fn lemma_grid_index_injective(n: int, m: int)
    requires
        0 <= n < STICKERS_PER_FACE,
        0 <= m < STICKERS_PER_FACE,
        grid_index(n, 0) == grid_index(m, 0),
        grid_index(n, 1) == grid_index(m, 1),
        grid_index(n, 2) == grid_index(m, 2),
    ensures
        n == m,
{
}

/// No two stickers of the solved tesseract share a position: stickers at
/// different places of the structure differ on at least one axis.
pub proof fn lemma_positions_distinct(cube: Hypercube, f: int, n: int, g: int, m: int)
    requires
        cube.well_formed(),
        0 <= f < FACE_COUNT,
        0 <= g < FACE_COUNT,
        0 <= n < STICKERS_PER_FACE,
        0 <= m < STICKERS_PER_FACE,
        f != g || n != m,
    ensures
        exists|axis: int|
            0 <= axis < 4 && #[trigger] cube.faces@[f].stickers@[n].position[axis]
                != cube.faces@[g].stickers@[m].position[axis],
{
    let a = cube.faces@[f].stickers@[n].position;
    let b = cube.faces@[g].stickers@[m].position;
    lemma_sticker_on_lattice(cube, f, n);
    lemma_sticker_on_lattice(cube, g, m);
    let d = FIXED_DIMS[f] as int;
    let e = FIXED_DIMS[g] as int;
    if f != g {
        // The pinned coordinate of one cell is odd, every free coordinate is even.
        if d == e {
            assert(a[d] != b[d]);
        } else {
            assert(a[d] != b[d]);
        }
    } else {
        assert(cube.faces@[f].is_grid(face_color(f), d));
        if forall|axis: int| 0 <= axis < 4 ==> a[axis] == b[axis] {
            assert forall|slot: int| 0 <= slot < 3 implies grid_index(n, slot) == grid_index(
                m,
                slot,
            ) by {
                let axis = free_axis(d, slot);
                assert(axis_slot(d, axis) == slot);
                assert(a[axis] == grid_coord(cube.faces@[f].center, d, n, axis));
                assert(b[axis] == grid_coord(cube.faces@[f].center, d, m, axis));
            }
            lemma_grid_index_injective(n, m);
        }
    }
}

/// The solved arrangement is unique: two solved tesseracts agree on every
/// cell centre and on the colour and every coordinate of every sticker.
pub proof fn lemma_solved_is_unique(a: Hypercube, b: Hypercube)
    requires
        a.well_formed(),
        b.well_formed(),
    ensures
        a.faces@.len() == b.faces@.len(),
        forall|f: int| 0 <= f < FACE_COUNT ==> (#[trigger] a.faces@[f]).center == b.faces@[f].center,
        forall|f: int|
            0 <= f < FACE_COUNT ==> (#[trigger] a.faces@[f]).stickers@.len()
                == b.faces@[f].stickers@.len(),
        forall|f: int, n: int|
            0 <= f < FACE_COUNT && 0 <= n < STICKERS_PER_FACE ==> (#[trigger] a.faces@[f].stickers@[n])
                == b.faces@[f].stickers@[n],
{
    assert forall|f: int, n: int|
        0 <= f < FACE_COUNT && 0 <= n < STICKERS_PER_FACE implies (#[trigger] a.faces@[f].stickers@[n])
        == b.faces@[f].stickers@[n] by {
        let x = a.faces@[f].stickers@[n];
        let y = b.faces@[f].stickers@[n];
        let d = FIXED_DIMS[f] as int;
        assert(a.faces@[f].is_grid(face_color(f), d));
        assert(b.faces@[f].is_grid(face_color(f), d));
        assert forall|axis: int| 0 <= axis < 4 implies x.position[axis] == y.position[axis] by {
            assert(x.position[axis] == grid_coord(a.faces@[f].center, d, n, axis));
            assert(y.position[axis] == grid_coord(b.faces@[f].center, d, n, axis));
        }
        assert(x.position =~= y.position);
    }
}

/// Offset of a sticker from the centre of its cell: `position` minus
/// `FACE_CENTERS[face_id]`, axis by axis.
///
/// A host that spreads the cells apart scales the centre and adds this
/// offset back, so that the stickers of a cell keep their distances.
pub fn sticker_offset(position: [i32; 4], face_id: usize) -> (offset: [i32; 4])
    requires
        face_id < FACE_COUNT,
        forall|axis: int|
            0 <= axis < 4 ==> i32::MIN + 3 <= #[trigger] position[axis] <= i32::MAX - 3,
    ensures
        forall|axis: int|
            0 <= axis < 4 ==> #[trigger] offset[axis] == position[axis] - FACE_CENTERS[face_id as int][axis],
{
    let center = FACE_CENTERS[face_id];
    let mut offset = position;
    let mut axis: usize = 0;
    while axis < 4
        invariant
            axis <= 4,
            face_id < FACE_COUNT,
            center == FACE_CENTERS[face_id as int],
            forall|a: int| 0 <= a < 4 ==> i32::MIN + 3 <= #[trigger] position[a] <= i32::MAX - 3,
            forall|a: int| 0 <= a < axis ==> #[trigger] offset[a] == position[a] - center[a],
            forall|a: int| axis <= a < 4 ==> #[trigger] offset[a] == position[a],
        decreases 4 - axis,
    {
        offset[axis] = offset[axis] - center[axis];
        axis = axis + 1;
    }
    offset
}

/// In the solved tesseract the offset of a sticker from its cell centre
/// vanishes on the pinned axis and is a grid offset on every free axis.
pub proof fn lemma_solved_sticker_offset(cube: Hypercube, f: int, n: int, axis: int)
    requires
        cube.well_formed(),
        0 <= f < FACE_COUNT,
        0 <= n < STICKERS_PER_FACE,
        0 <= axis < 4,
    ensures
        cube.faces@[f].stickers@[n].position[axis] - FACE_CENTERS[f][axis] == (if axis
            == FIXED_DIMS[f] {
            0
        } else {
            grid_offset(grid_index(n, axis_slot(FIXED_DIMS[f] as int, axis)))
        }),
{
    let face = cube.faces@[f];
    assert(face.is_grid(face_color(f), FIXED_DIMS[f] as int));
    assert(face.stickers@[n].position[axis] == grid_coord(face.center, FIXED_DIMS[f] as int, n, axis));
}

} // verus!
