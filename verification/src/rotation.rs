//! The six coordinate planes of four-dimensional space and the layout of an
//! elementary rotation in each of them.
//!
//! A rotation by an angle in the plane of axes `a < b` leaves the other two
//! axes alone and turns the plane by the usual 2x2 block
//! `[[cos, -sin], [sin, cos]]`. This module says which entry of the 4x4
//! matrix holds what; the host fills in the cosine and the sine.

use vstd::prelude::*;

verus! {

/// A plane spanned by two of the four coordinate axes.
#[derive(Clone, Copy, Debug, PartialEq, Eq, Structural)]
pub enum RotationPlane {
    XY,
    XZ,
    XW,
    YZ,
    YW,
    ZW,
}

/// What one entry of an elementary rotation matrix holds.
#[derive(Clone, Copy, Debug, PartialEq, Eq, Structural)]
pub enum MatrixEntry {
    /// The constant 0.
    Zero,
    /// The constant 1.
    One,
    /// The cosine of the angle.
    Cos,
    /// The sine of the angle.
    Sin,
    /// The negated sine of the angle.
    NegSin,
}

impl MatrixEntry {
    /// The entry with the angle negated.
    pub open spec fn reversed(self) -> MatrixEntry {
        match self {
            MatrixEntry::Sin => MatrixEntry::NegSin,
            MatrixEntry::NegSin => MatrixEntry::Sin,
            other => other,
        }
    }

    /// Value of the entry for the given cosine and sine.
    pub open spec fn value(self, cos: int, sin: int) -> int {
        match self {
            MatrixEntry::Zero => 0,
            MatrixEntry::One => 1,
            MatrixEntry::Cos => cos,
            MatrixEntry::Sin => sin,
            MatrixEntry::NegSin => -sin,
        }
    }

    /// Product of the entry, for the given cosine and sine, with `x`.
    pub open spec fn times(self, cos: int, sin: int, x: int) -> int {
        match self {
            MatrixEntry::Zero => 0,
            MatrixEntry::One => x,
            MatrixEntry::Cos => cos * x,
            MatrixEntry::Sin => sin * x,
            MatrixEntry::NegSin => -(sin * x),
        }
    }
}

impl RotationPlane {
    /// The lower of the two axes of the plane.
    pub open spec fn first_axis(self) -> int {
        match self {
            RotationPlane::XY | RotationPlane::XZ | RotationPlane::XW => 0,
            RotationPlane::YZ | RotationPlane::YW => 1,
            RotationPlane::ZW => 2,
        }
    }

    /// The higher of the two axes of the plane.
    pub open spec fn second_axis(self) -> int {
        match self {
            RotationPlane::XY => 1,
            RotationPlane::XZ | RotationPlane::YZ => 2,
            RotationPlane::XW | RotationPlane::YW | RotationPlane::ZW => 3,
        }
    }

    /// What the entry in `row` and `col` of the rotation matrix holds.
    pub open spec fn spec_entry(self, row: int, col: int) -> MatrixEntry {
        let a = self.first_axis();
        let b = self.second_axis();
        if row == col {
            if row == a || row == b {
                MatrixEntry::Cos
            } else {
                MatrixEntry::One
            }
        } else if row == a && col == b {
            MatrixEntry::NegSin
        } else if row == b && col == a {
            MatrixEntry::Sin
        } else {
            MatrixEntry::Zero
        }
    }

    /// Coordinate `row` of the image of `point` under the rotation with the
    /// given cosine and sine.
    pub open spec fn rotated_coord(self, cos: int, sin: int, point: Seq<int>, row: int) -> int {
        self.spec_entry(row, 0).times(cos, sin, point[0]) + self.spec_entry(row, 1).times(
            cos,
            sin,
            point[1],
        ) + self.spec_entry(row, 2).times(cos, sin, point[2]) + self.spec_entry(row, 3).times(
            cos,
            sin,
            point[3],
        )
    }

    /// The two axes of the plane, the lower one first.
    pub fn axes(self) -> (axes: (usize, usize))
        ensures
            axes.0 == self.first_axis(),
            axes.1 == self.second_axis(),
            axes.0 < axes.1 < 4,
    {
        match self {
            RotationPlane::XY => (0, 1),
            RotationPlane::XZ => (0, 2),
            RotationPlane::XW => (0, 3),
            RotationPlane::YZ => (1, 2),
            RotationPlane::YW => (1, 3),
            RotationPlane::ZW => (2, 3),
        }
    }

    /// What the entry in `row` and `col` of the rotation matrix holds.
    pub fn entry(self, row: usize, col: usize) -> (entry: MatrixEntry)
        requires
            row < 4,
            col < 4,
        ensures
            entry == self.spec_entry(row as int, col as int),
    {
        let (a, b) = self.axes();
        if row == col {
            if row == a || row == b {
                MatrixEntry::Cos
            } else {
                MatrixEntry::One
            }
        } else if row == a && col == b {
            MatrixEntry::NegSin
        } else if row == b && col == a {
            MatrixEntry::Sin
        } else {
            MatrixEntry::Zero
        }
    }
}

/// The product of an entry with a number is the product of its value with that number.
pub proof fn lemma_times_is_product(entry: MatrixEntry, cos: int, sin: int, x: int)
    ensures
        entry.times(cos, sin, x) == entry.value(cos, sin) * x,
{
    assert((-sin) * x == -(sin * x)) by (nonlinear_arith);
}

/// The six planes are the six pairs of different axes: a plane is
/// determined by its two axes.
pub proof fn lemma_planes_are_the_axis_pairs(p: RotationPlane, q: RotationPlane)
    ensures
        0 <= p.first_axis() < p.second_axis() < 4,
        (p.first_axis() == q.first_axis() && p.second_axis() == q.second_axis()) ==> p == q,
{
}

/// An elementary rotation is the identity on the two axes outside its
/// plane: their rows and columns are those of the identity matrix.
pub proof fn lemma_identity_outside_plane(plane: RotationPlane, axis: int, other: int)
    requires
        0 <= axis < 4,
        0 <= other < 4,
        axis != plane.first_axis(),
        axis != plane.second_axis(),
    ensures
        plane.spec_entry(axis, other) == if axis == other {
            MatrixEntry::One
        } else {
            MatrixEntry::Zero
        },
        plane.spec_entry(other, axis) == plane.spec_entry(axis, other),
{
}

/// Transposing an elementary rotation negates the angle.
pub proof fn lemma_transpose_reverses(plane: RotationPlane, row: int, col: int)
    requires
        0 <= row < 4,
        0 <= col < 4,
    ensures
        plane.spec_entry(col, row) == plane.spec_entry(row, col).reversed(),
{
}

/// With cosine 1 and sine 0, the values of a zero angle, every elementary
/// rotation is the identity matrix, and maps every point to itself.
pub proof fn lemma_zero_angle_is_identity(plane: RotationPlane, point: Seq<int>)
    requires
        point.len() == 4,
    ensures
        forall|row: int, col: int|
            0 <= row < 4 && 0 <= col < 4 ==> #[trigger] plane.spec_entry(row, col).value(1, 0) == (if row
                == col {
                1int
            } else {
                0int
            }),
        forall|row: int| 0 <= row < 4 ==> #[trigger] plane.rotated_coord(1, 0, point, row) == point[row],
{
}

/// An elementary rotation moves a point within the plane only: the two
/// coordinates outside the plane stay, the two inside turn by the 2x2 block.
pub proof fn lemma_rotated_coords(plane: RotationPlane, cos: int, sin: int, point: Seq<int>)
    requires
        point.len() == 4,
    ensures
        forall|row: int|
            0 <= row < 4 && row != plane.first_axis() && row != plane.second_axis()
                ==> #[trigger] plane.rotated_coord(cos, sin, point, row) == point[row],
        plane.rotated_coord(cos, sin, point, plane.first_axis()) == cos * point[plane.first_axis()]
            - sin * point[plane.second_axis()],
        plane.rotated_coord(cos, sin, point, plane.second_axis()) == sin * point[plane.first_axis()]
            + cos * point[plane.second_axis()],
{
    let a = plane.first_axis();
    let b = plane.second_axis();
    assert(plane.rotated_coord(cos, sin, point, a) == cos * point[a] - sin * point[b]);
    assert(plane.rotated_coord(cos, sin, point, b) == sin * point[a] + cos * point[b]);
}

/// Sum of the squares of the four coordinates of a point.
pub open spec fn norm_squared(point: Seq<int>) -> int {
    point[0] * point[0] + point[1] * point[1] + point[2] * point[2] + point[3] * point[3]
}

/// The image of `point` under the rotation with the given cosine and sine.
pub open spec fn rotated(plane: RotationPlane, cos: int, sin: int, point: Seq<int>) -> Seq<int> {
    Seq::new(4, |row: int| plane.rotated_coord(cos, sin, point, row))
}

/// Where the cosine and the sine satisfy `cos^2 + sin^2 = 1`, an elementary
/// rotation preserves the norm of every point. The identity behind it,
/// `|R p|^2 - |p|^2 = (cos^2 + sin^2 - 1) (p_a^2 + p_b^2)`, is stated over
/// the integers.
pub proof fn lemma_rotation_preserves_norm(plane: RotationPlane, cos: int, sin: int, point: Seq<int>)
    requires
        point.len() == 4,
        cos * cos + sin * sin == 1,
    ensures
        norm_squared(rotated(plane, cos, sin, point)) == norm_squared(point),
{
    let a = plane.first_axis();
    let b = plane.second_axis();
    let image = rotated(plane, cos, sin, point);
    lemma_rotated_coords(plane, cos, sin, point);
    let pa = point[a];
    let pb = point[b];
    let qa = image[a];
    let qb = image[b];
    assert(qa == cos * pa - sin * pb);
    assert(qb == sin * pa + cos * pb);
    assert(qa * qa + qb * qb == pa * pa + pb * pb) by (nonlinear_arith)
        requires
            qa == cos * pa - sin * pb,
            qb == sin * pa + cos * pb,
            cos * cos + sin * sin == 1,
    {
        assert(qa * qa + qb * qb == (cos * cos + sin * sin) * (pa * pa + pb * pb));
    }
    assert forall|row: int| 0 <= row < 4 && row != a && row != b implies image[row] == point[row] by {}
}

/// The image of `point` under a succession of elementary rotations, each
/// given by its plane, cosine and sine, the first of `steps` applied first.
pub open spec fn rotated_by_all(steps: Seq<(RotationPlane, int, int)>, point: Seq<int>) -> Seq<int>
    decreases steps.len(),
{
    if steps.len() == 0 {
        point
    } else {
        let last = steps.last();
        rotated(last.0, last.1, last.2, rotated_by_all(steps.drop_last(), point))
    }
}

/// An accumulated rotation preserves the norm: where every step has
/// `cos^2 + sin^2 = 1`, the image of a point under any succession of
/// elementary rotations has the norm of the point.
pub proof fn lemma_accumulated_rotation_preserves_norm(
    steps: Seq<(RotationPlane, int, int)>,
    point: Seq<int>,
)
    requires
        point.len() == 4,
        forall|k: int|
            0 <= k < steps.len() ==> (#[trigger] steps[k]).1 * steps[k].1 + steps[k].2 * steps[k].2 == 1,
    ensures
        rotated_by_all(steps, point).len() == 4,
        norm_squared(rotated_by_all(steps, point)) == norm_squared(point),
    decreases steps.len(),
{
    if steps.len() > 0 {
        let last = steps.last();
        let before = rotated_by_all(steps.drop_last(), point);
        lemma_accumulated_rotation_preserves_norm(steps.drop_last(), point);
        assert(steps[steps.len() - 1] == last);
        lemma_rotation_preserves_norm(last.0, last.1, last.2, before);
    }
}

/// Steps of zero angle change nothing: a succession of elementary rotations
/// that all have cosine 1 and sine 0 maps every point to itself.
pub proof fn lemma_zero_steps_change_nothing(steps: Seq<(RotationPlane, int, int)>, point: Seq<int>)
    requires
        point.len() == 4,
        forall|k: int| 0 <= k < steps.len() ==> (#[trigger] steps[k]).1 == 1 && steps[k].2 == 0,
    ensures
        rotated_by_all(steps, point) == point,
    decreases steps.len(),
{
    if steps.len() > 0 {
        let last = steps.last();
        lemma_zero_steps_change_nothing(steps.drop_last(), point);
        assert(steps[steps.len() - 1] == last);
        lemma_zero_angle_is_identity(last.0, point);
        assert(rotated(last.0, 1, 0, point) =~= point);
    }
}

/// The order of composition matters: there are two elementary rotations and
/// a point whose image depends on which of the two is applied first.
pub proof fn lemma_rotation_order_matters()
    ensures
        exists|p: RotationPlane, q: RotationPlane, cos: int, sin: int, point: Seq<int>|
            point.len() == 4 && cos * cos + sin * sin == 1 && #[trigger] rotated(
                q,
                cos,
                sin,
                rotated(p, cos, sin, point),
            ) != rotated(p, cos, sin, rotated(q, cos, sin, point)),
{
    let point = seq![1int, 0int, 0int, 0int];
    let xw_first = rotated(RotationPlane::YW, 0, 1, rotated(RotationPlane::XW, 0, 1, point));
    let yw_first = rotated(RotationPlane::XW, 0, 1, rotated(RotationPlane::YW, 0, 1, point));
    assert(rotated(RotationPlane::XW, 0, 1, point)[3] == 1);
    assert(xw_first[1] == -1);
    assert(rotated(RotationPlane::YW, 0, 1, point)[1] == 0);
    assert(yw_first[1] == 0);
    assert(xw_first != yw_first);
}

} // verus!
