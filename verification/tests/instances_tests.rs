use hypercube::cube::{Color, Face, Hypercube, Sticker, FACE_CENTERS};
use hypercube::instances::{generate_sticker_data, generate_sticker_instances};

#[test]
fn instances_list_all_216_stickers_face_by_face() {
    let cube = Hypercube::new();
    let instances = generate_sticker_instances(&cube);
    assert_eq!(instances.len(), 216);
    for (k, instance) in instances.iter().enumerate() {
        let (f, n) = (k / 27, k % 27);
        assert_eq!(instance.face_id, f);
        assert_eq!(instance.position_4d, cube.faces[f].stickers[n].position);
        assert_eq!(instance.color, cube.faces[f].stickers[n].color);
    }
}

#[test]
fn instances_have_exact_known_entries() {
    let instances = generate_sticker_instances(&Hypercube::new());
    // first sticker of cell 0 (W = -1)
    assert_eq!(instances[0].position_4d, [-2, -2, -2, -3]);
    assert_eq!(instances[0].color, Color::White);
    assert_eq!(instances[0].face_id, 0);
    // centre sticker of cell 4 (X = +1): index 4 * 27 + 13
    assert_eq!(instances[121].position_4d, FACE_CENTERS[4]);
    assert_eq!(instances[121].position_4d, [3, 0, 0, 0]);
    assert_eq!(instances[121].color, Color::Red);
    assert_eq!(instances[121].face_id, 4);
    // last sticker of cell 7 (W = +1)
    assert_eq!(instances[215].position_4d, [2, 2, 2, 3]);
    assert_eq!(instances[215].color, Color::Brown);
    assert_eq!(instances[215].face_id, 7);
}

#[test]
fn sticker_data_is_the_instances_split_in_two() {
    let cube = Hypercube::new();
    let instances = generate_sticker_instances(&cube);
    let (positions, face_ids) = generate_sticker_data(&cube);
    assert_eq!(positions.len(), 216);
    assert_eq!(face_ids.len(), 216);
    for k in 0..216 {
        assert_eq!(positions[k], instances[k].position_4d);
        assert_eq!(face_ids[k], instances[k].face_id);
        assert_eq!(face_ids[k], k / 27);
    }
    assert_eq!(positions[27], [-2, -2, -3, -2]);
}

#[test]
fn instances_of_uneven_faces_follow_the_running_offset() {
    let sticker = |color, w| Sticker { color, position: [0, 0, 0, w] };
    let cube = Hypercube {
        faces: vec![
            Face { stickers: vec![sticker(Color::Red, 1), sticker(Color::Red, 2)], center: [0; 4] },
            Face { stickers: vec![], center: [0; 4] },
            Face { stickers: vec![sticker(Color::Blue, 3)], center: [0; 4] },
        ],
    };
    let instances = generate_sticker_instances(&cube);
    assert_eq!(instances.len(), 3);
    assert_eq!(instances[0].position_4d, [0, 0, 0, 1]);
    assert_eq!(instances[0].face_id, 0);
    assert_eq!(instances[1].position_4d, [0, 0, 0, 2]);
    assert_eq!(instances[1].face_id, 0);
    assert_eq!(instances[2].position_4d, [0, 0, 0, 3]);
    assert_eq!(instances[2].color, Color::Blue);
    assert_eq!(instances[2].face_id, 2);
    let (positions, face_ids) = generate_sticker_data(&cube);
    assert_eq!(positions, vec![[0, 0, 0, 1], [0, 0, 0, 2], [0, 0, 0, 3]]);
    assert_eq!(face_ids, vec![0, 0, 2]);
}

#[test]
fn instances_of_an_empty_cube_are_empty() {
    let cube = Hypercube { faces: Vec::new() };
    assert!(generate_sticker_instances(&cube).is_empty());
    let (positions, face_ids) = generate_sticker_data(&cube);
    assert!(positions.is_empty());
    assert!(face_ids.is_empty());
}
