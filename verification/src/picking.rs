//! Selection logic of the pointer hit test.
//!
//! The host casts a ray and measures how far along the ray each piece of
//! geometry is hit. This module decides what follows from those
//! measurements: which cells pass the broad phase, which stickers are worth
//! testing, and which hit is the closest.

use vstd::prelude::*;
use crate::scalar::Scalar;

verus! {

/// What the broad phase found out about one cell.
#[derive(Clone, Copy, Debug, PartialEq, Eq, Structural)]
pub enum FaceProbe {
    /// The cell faces away from the four-dimensional viewer.
    Culled,
    /// The cell is visible, but the ray misses its bounding box.
    BoxMissed,
    /// The cell is visible and the ray crosses its bounding box.
    BoxHit,
}

/// Whether a cell is turned towards the four-dimensional viewer.
///
/// `dot_product` is the product of the rotated centre of the cell with the
/// vector from that centre to the viewer. The centre stands in for the
/// outward direction of the cell: the cell is visible where the product is
/// negative, and culled where it is zero, positive or no number.
pub fn is_face_visible(dot_product: Scalar) -> (visible: bool)
    ensures
        visible == dot_product.spec_lt(Scalar::spec_zero()),
{
    dot_product.lt(Scalar::zero())
}

/// Whether the stickers of cell `face_id` have to be tested.
pub open spec fn is_intersectable(probes: Seq<FaceProbe>, face_id: int) -> bool {
    0 <= face_id < probes.len() && probes[face_id] == FaceProbe::BoxHit
}

/// Whether `i` is the hit to select among `distances`: it is closer than
/// infinity, no hit is closer, and every earlier hit is farther.
pub open spec fn is_nearest(distances: Seq<Option<Scalar>>, i: int) -> bool {
    &&& 0 <= i < distances.len()
    &&& distances[i] is Some
    &&& distances[i]->0.spec_lt(Scalar::spec_infinity())
    &&& forall|j: int|
        0 <= j < distances.len() && (#[trigger] distances[j]) is Some ==> !distances[j]->0.spec_lt(
            distances[i]->0,
        )
    &&& forall|j: int|
        0 <= j < i && (#[trigger] distances[j]) is Some && !distances[j]->0.spec_is_nan()
            ==> distances[i]->0.spec_lt(distances[j]->0)
}

/// Whether `distances` holds no hit closer than infinity.
pub open spec fn nothing_hit(distances: Seq<Option<Scalar>>) -> bool {
    forall|j: int|
        0 <= j < distances.len() && (#[trigger] distances[j]) is Some ==> !distances[j]->0.spec_lt(
            Scalar::spec_infinity(),
        )
}

/// The measured distances that count for the selection: that of sticker `i`
/// if its cell passed the broad phase, none otherwise. Stickers beyond the
/// shorter of the two lists are left out.
pub open spec fn eligible_hits(
    probes: Seq<FaceProbe>,
    face_ids: Seq<usize>,
    hits: Seq<Option<Scalar>>,
) -> Seq<Option<Scalar>> {
    Seq::new(
        if face_ids.len() <= hits.len() {
            face_ids.len()
        } else {
            hits.len()
        },
        |i: int|
            if is_intersectable(probes, face_ids[i] as int) {
                hits[i]
            } else {
                None
            },
    )
}

/// Index of the closest hit among `distances`, the earliest one where
/// several are equally close; `None` where nothing is hit.
///
/// A distance that is no number is never closer than another, so it is
/// never selected.
pub fn nearest_hit(distances: &Vec<Option<Scalar>>) -> (nearest: Option<usize>)
    ensures
        match nearest {
            Some(i) => is_nearest(distances@, i as int),
            None => nothing_hit(distances@),
        },
{
    let mut closest_distance = Scalar::infinity();
    let mut closest: Option<usize> = None;
    let mut index: usize = 0;
    while index < distances.len()
        invariant
            index <= distances@.len(),
            !closest_distance.spec_is_nan(),
            closest is None ==> closest_distance == Scalar::spec_infinity(),
            closest is Some ==> {
                &&& closest->0 < index
                &&& distances@[closest->0 as int] == Some(closest_distance)
                &&& closest_distance.spec_lt(Scalar::spec_infinity())
            },
            forall|j: int|
                0 <= j < index && (#[trigger] distances@[j]) is Some ==> !distances@[j]->0.spec_lt(
                    closest_distance,
                ),
            forall|j: int|
                closest is Some && 0 <= j < closest->0 && (#[trigger] distances@[j]) is Some
                    && !distances@[j]->0.spec_is_nan() ==> closest_distance.spec_lt(distances@[j]->0),
        decreases distances@.len() - index,
    {
        if let Some(distance) = distances[index] {
            if distance.lt(closest_distance) {
                closest_distance = distance;
                closest = Some(index);
            }
        }
        index = index + 1;
    }
    closest
}

/// The cells whose stickers have to be tested, in ascending order.
pub fn intersectable_faces(probes: &Vec<FaceProbe>) -> (faces: Vec<usize>)
    ensures
        forall|a: int, b: int| 0 <= a < b < faces@.len() ==> faces@[a] < faces@[b],
        forall|face_id: int|
            is_intersectable(probes@, face_id) <==> (0 <= face_id <= usize::MAX && faces@.contains(
                face_id as usize,
            )),
{
    let mut faces: Vec<usize> = Vec::new();
    let mut face_id: usize = 0;
    while face_id < probes.len()
        invariant
            face_id <= probes@.len(),
            forall|a: int| 0 <= a < faces@.len() ==> (#[trigger] faces@[a]) < face_id,
            forall|a: int, b: int| 0 <= a < b < faces@.len() ==> faces@[a] < faces@[b],
            forall|a: int|
                0 <= a < faces@.len() ==> is_intersectable(probes@, (#[trigger] faces@[a]) as int),
            forall|f: int|
                0 <= f < face_id && is_intersectable(probes@, f) ==> faces@.contains(f as usize),
        decreases probes@.len() - face_id,
    {
        match probes[face_id] {
            FaceProbe::BoxHit => {
                let ghost before = faces@;
                faces.push(face_id);
                proof {
                    assert(faces@[before.len() as int] == face_id);
                    assert forall|f: int|
                        0 <= f < face_id + 1 && is_intersectable(
                            probes@,
                            f,
                        ) implies faces@.contains(f as usize) by {
                        if f < face_id {
                            let a = choose|a: int| 0 <= a < before.len() && before[a] == f as usize;
                            assert(faces@[a] == f as usize);
                        }
                    }
                }
            },
            _ => {},
        }
        face_id = face_id + 1;
    }
    faces
}

/// Whether `value` occurs in `list`.
pub fn is_listed(list: &Vec<usize>, value: usize) -> (listed: bool)
    ensures
        listed == list@.contains(value),
{
    let mut index: usize = 0;
    while index < list.len()
        invariant
            index <= list@.len(),
            forall|a: int| 0 <= a < index ==> list@[a] != value,
        decreases list@.len() - index,
    {
        if list[index] == value {
            return true;
        }
        index = index + 1;
    }
    false
}

/// Selects the sticker that a ray hits first.
///
/// `probes[f]` is the outcome of the broad phase for cell `f`, `face_ids[i]`
/// the cell of sticker `i`, and `hits[i]` the distance at which the ray
/// meets the geometry of sticker `i`, if it does. Only stickers of
/// cells that passed the broad phase count. The result is the index of the
/// counted sticker with the smallest distance, the earliest one where several
/// are equally close, and `None` where no counted sticker is hit.
pub fn find_intersected_sticker(
    probes: &Vec<FaceProbe>,
    face_ids: &Vec<usize>,
    hits: &Vec<Option<Scalar>>,
) -> (closest_sticker: Option<usize>)
    ensures
        match closest_sticker {
            Some(i) => is_nearest(eligible_hits(probes@, face_ids@, hits@), i as int),
            None => nothing_hit(eligible_hits(probes@, face_ids@, hits@)),
        },
{
    let intersectable = intersectable_faces(probes);
    let ghost eligible = eligible_hits(probes@, face_ids@, hits@);
    let mut counted: Vec<Option<Scalar>> = Vec::new();
    let mut sticker_index: usize = 0;
    while sticker_index < face_ids.len() && sticker_index < hits.len()
        invariant
            eligible == eligible_hits(probes@, face_ids@, hits@),
            sticker_index <= face_ids@.len(),
            sticker_index <= hits@.len(),
            counted@.len() == sticker_index,
            forall|face_id: int|
                is_intersectable(probes@, face_id) <==> (0 <= face_id <= usize::MAX
                    && intersectable@.contains(face_id as usize)),
            forall|i: int| 0 <= i < sticker_index ==> #[trigger] counted@[i] == eligible[i],
        decreases face_ids@.len() - sticker_index,
    {
        let face_id = face_ids[sticker_index];
        if is_listed(&intersectable, face_id) {
            counted.push(hits[sticker_index]);
        } else {
            counted.push(None);
        }
        sticker_index = sticker_index + 1;
    }
    assert(counted@ =~= eligible);
    nearest_hit(&counted)
}

/// At most one hit is selected: the nearest hit is unique.
pub proof fn lemma_nearest_is_unique(distances: Seq<Option<Scalar>>, i: int, j: int)
    requires
        is_nearest(distances, i),
        is_nearest(distances, j),
    ensures
        i == j,
{
}

/// A hit is selected exactly when some hit is closer than infinity.
pub proof fn lemma_nearest_excludes_nothing_hit(distances: Seq<Option<Scalar>>, i: int)
    requires
        is_nearest(distances, i),
    ensures
        !nothing_hit(distances),
{
}

/// The selected sticker is one that was measured as hit, and its cell
/// passed the broad phase: nothing is ever selected on a culled cell or on a
/// cell whose bounding box the ray misses.
pub proof fn lemma_selected_sticker_is_eligible(
    probes: Seq<FaceProbe>,
    face_ids: Seq<usize>,
    hits: Seq<Option<Scalar>>,
    i: int,
)
    requires
        is_nearest(eligible_hits(probes, face_ids, hits), i),
    ensures
        0 <= i < face_ids.len(),
        0 <= i < hits.len(),
        is_intersectable(probes, face_ids[i] as int),
        hits[i] is Some,
        hits[i]->0.spec_lt(Scalar::spec_infinity()),
{
}

/// Letting a cell through the broad phase needlessly costs time only: where
/// no sticker of cell `face` is hit, the selection is the same whatever the
/// broad phase says of that cell.
pub proof fn lemma_spurious_face_changes_nothing(
    probes: Seq<FaceProbe>,
    face_ids: Seq<usize>,
    hits: Seq<Option<Scalar>>,
    face: int,
    probe: FaceProbe,
)
    requires
        0 <= face < probes.len(),
        forall|i: int|
            0 <= i < face_ids.len() && i < hits.len() && face_ids[i] == face ==> (#[trigger] hits[i])
                is None,
    ensures
        eligible_hits(probes.update(face, probe), face_ids, hits) == eligible_hits(
            probes,
            face_ids,
            hits,
        ),
{
    let changed = eligible_hits(probes.update(face, probe), face_ids, hits);
    let unchanged = eligible_hits(probes, face_ids, hits);
    assert forall|i: int| 0 <= i < unchanged.len() implies changed[i] == unchanged[i] by {
        if face_ids[i] == face {
            assert(hits[i] is None);
        }
    }
    assert(changed =~= unchanged);
}

} // verus!
