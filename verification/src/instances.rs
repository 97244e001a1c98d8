//! The flat, index-addressable list of all stickers of a tesseract.
//!
//! Rendering and hit testing address a sticker by one index into this list;
//! the index of the `n`-th sticker of cell `f` is the number of stickers in
//! the cells before `f`, plus `n`.

use vstd::prelude::*;
use crate::cube::{sticker_total, Color, Face, Hypercube};

verus! {

/// One entry of the flat sticker list.
#[derive(Clone, Copy, Debug)]
pub struct StickerInstance {
    /// Centre of the sticker, in lattice units.
    pub position_4d: [i32; 4],
    /// Colour of the sticker.
    pub color: Color,
    /// Index of the cell that owns the sticker.
    pub face_id: usize,
}

/// Index in the flat list of the first sticker of cell `f`.
pub open spec fn instance_offset(faces: Seq<Face>, f: int) -> nat {
    sticker_total(faces.take(f))
}

/// The flat-list entry of the `n`-th sticker of cell `f`.
pub open spec fn instance_of(faces: Seq<Face>, f: int, n: int) -> StickerInstance {
    StickerInstance {
        position_4d: faces[f].stickers@[n].position,
        color: faces[f].stickers@[n].color,
        face_id: f as usize,
    }
}

/// Whether `instances` lists every sticker of `faces`, cell by cell and in
/// the order of each cell.
pub open spec fn lists_stickers(instances: Seq<StickerInstance>, faces: Seq<Face>) -> bool {
    &&& instances.len() == sticker_total(faces)
    &&& forall|f: int, n: int|
        0 <= f < faces.len() && 0 <= n < faces[f].stickers@.len() ==> #[trigger] instances[
            instance_offset(faces, f) + n] == instance_of(faces, f, n)
}

/// The stickers up to and including cell `f` are those before it and its own.
pub proof fn lemma_offset_step(faces: Seq<Face>, f: int)
    requires
        0 <= f < faces.len(),
    ensures
        instance_offset(faces, f + 1) == instance_offset(faces, f) + faces[f].stickers@.len(),
{
    assert(faces.take(f + 1).drop_last() =~= faces.take(f));
    assert(faces.take(f + 1).last() == faces[f]);
}

/// The offsets grow with the cell index and stay within the total.
pub proof fn lemma_offset_monotonic(faces: Seq<Face>, f: int, g: int)
    requires
        0 <= f <= g <= faces.len(),
    ensures
        instance_offset(faces, f) <= instance_offset(faces, g),
        instance_offset(faces, faces.len() as int) == sticker_total(faces),
    decreases g - f,
{
    assert(faces.take(faces.len() as int) =~= faces);
    if f < g {
        lemma_offset_step(faces, g - 1);
        lemma_offset_monotonic(faces, f, g - 1);
    }
}

/// Lists every sticker of the tesseract with its cell index, cell by cell.
pub fn generate_sticker_instances(hypercube: &Hypercube) -> (instances: Vec<StickerInstance>)
    ensures
        lists_stickers(instances@, hypercube.faces@),
{
    let mut instances: Vec<StickerInstance> = Vec::new();
    let ghost faces = hypercube.faces@;
    let mut face_id: usize = 0;
    while face_id < hypercube.faces.len()
        invariant
            faces == hypercube.faces@,
            face_id <= faces.len(),
            instances@.len() == instance_offset(faces, face_id as int),
            forall|f: int, n: int|
                0 <= f < face_id && 0 <= n < faces[f].stickers@.len() ==> #[trigger] instances@[
                    instance_offset(faces, f) + n] == instance_of(faces, f, n),
        decreases faces.len() - face_id,
    {
        let face = &hypercube.faces[face_id];
        let ghost start = instances@.len();
        let ghost before = instances@;
        let mut n: usize = 0;
        while n < face.stickers.len()
            invariant
                faces == hypercube.faces@,
                face_id < faces.len(),
                *face == faces[face_id as int],
                n <= face.stickers@.len(),
                start == instance_offset(faces, face_id as int),
                instances@.len() == start + n,
                before.len() == start,
                forall|i: int| 0 <= i < start ==> instances@[i] == before[i],
                forall|m: int|
                    0 <= m < n ==> #[trigger] instances@[start + m] == instance_of(
                        faces,
                        face_id as int,
                        m,
                    ),
            decreases face.stickers@.len() - n,
        {
            let sticker = &face.stickers[n];
            instances.push(
                StickerInstance {
                    position_4d: sticker.position,
                    color: sticker.color,
                    face_id,
                },
            );
            n = n + 1;
        }
        proof {
            lemma_offset_step(faces, face_id as int);
            assert forall|f: int, m: int|
                0 <= f < face_id + 1 && 0 <= m < faces[f].stickers@.len() implies #[trigger] instances@[
                instance_offset(faces, f) + m] == instance_of(faces, f, m) by {
                if f < face_id {
                    lemma_offset_step(faces, f);
                    lemma_offset_monotonic(faces, f + 1, face_id as int);
                    assert(before[instance_offset(faces, f) + m] == instance_of(faces, f, m));
                }
            }
        }
        face_id = face_id + 1;
    }
    proof {
        lemma_offset_monotonic(faces, 0, faces.len() as int);
    }
    instances
}

/// Splits the flat sticker list into the positions and the cell indices that
/// a hit test walks side by side.
pub fn generate_sticker_data(hypercube: &Hypercube) -> (data: (Vec<[i32; 4]>, Vec<usize>))
    ensures
        data.0@.len() == sticker_total(hypercube.faces@),
        data.1@.len() == sticker_total(hypercube.faces@),
        forall|f: int, n: int|
            0 <= f < hypercube.faces@.len() && 0 <= n < hypercube.faces@[f].stickers@.len() ==> {
                &&& #[trigger] data.0@[instance_offset(hypercube.faces@, f) + n]
                    == hypercube.faces@[f].stickers@[n].position
                &&& data.1@[instance_offset(hypercube.faces@, f) + n] == f
            },
{
    let instances = generate_sticker_instances(hypercube);
    let face_count = hypercube.faces.len();
    let mut sticker_positions: Vec<[i32; 4]> = Vec::new();
    let mut face_ids: Vec<usize> = Vec::new();
    let mut index: usize = 0;
    while index < instances.len()
        invariant
            index <= instances@.len(),
            sticker_positions@.len() == index,
            face_ids@.len() == index,
            forall|i: int|
                0 <= i < index ==> {
                    &&& #[trigger] sticker_positions@[i] == instances@[i].position_4d
                    &&& face_ids@[i] == instances@[i].face_id
                },
        decreases instances@.len() - index,
    {
        sticker_positions.push(instances[index].position_4d);
        face_ids.push(instances[index].face_id);
        index = index + 1;
    }
    proof {
        let faces = hypercube.faces@;
        assert forall|f: int, n: int|
            0 <= f < faces.len() && 0 <= n < faces[f].stickers@.len() implies {
            &&& #[trigger] sticker_positions@[instance_offset(faces, f) + n]
                == faces[f].stickers@[n].position
            &&& face_ids@[instance_offset(faces, f) + n] == f
        } by {
            let i = instance_offset(faces, f) + n;
            lemma_offset_step(faces, f);
            lemma_offset_monotonic(faces, f + 1, faces.len() as int);
            assert(instances@[i] == instance_of(faces, f, n));
            assert(f < face_count);
        }
    }
    (sticker_positions, face_ids)
}

/// In the solved tesseract cell `f` starts at index `27 f`, so the sticker
/// at flat index `k` is sticker `k % 27` of cell `k / 27`.
pub proof fn lemma_solved_instance_index(cube: Hypercube, instances: Seq<StickerInstance>, k: int)
    requires
        cube.well_formed(),
        lists_stickers(instances, cube.faces@),
        0 <= k < 216,
    ensures
        instances.len() == 216,
        instances[k] == instance_of(cube.faces@, k / 27, k % 27),
        instances[k].face_id == k / 27,
{
    let faces = cube.faces@;
    crate::cube::lemma_sticker_count(cube);
    let f = k / 27;
    let n = k % 27;
    assert(faces.take(f).len() == f);
    assert forall|g: int| 0 <= g < faces.take(f).len() implies (#[trigger] faces.take(
        f,
    )[g]).stickers@.len() == 27 by {
        assert(faces.take(f)[g] == faces[g]);
    }
    crate::cube::lemma_sticker_total_of_full_faces(faces.take(f));
    assert(instance_offset(faces, f) == 27 * f);
    assert(instances[instance_offset(faces, f) + n] == instance_of(faces, f, n));
}

} // verus!
