use hypercube::picking::{
    find_intersected_sticker, intersectable_faces, is_listed, nearest_hit, FaceProbe,
};
use hypercube::scalar::Scalar;

fn key(distance: f32) -> Scalar {
    Scalar::from_bits(distance.to_bits())
}

#[test]
fn nearest_hit_of_nothing_is_none() {
    assert_eq!(nearest_hit(&vec![]), None);
    assert_eq!(nearest_hit(&vec![None, None, None]), None);
}

#[test]
fn nearest_hit_picks_the_smallest_distance() {
    let hits = vec![Some(key(3.0)), None, Some(key(1.5)), Some(key(2.0))];
    assert_eq!(nearest_hit(&hits), Some(2));
    let hits = vec![None, Some(key(0.25))];
    assert_eq!(nearest_hit(&hits), Some(1));
    let hits: Vec<Option<Scalar>> =
        [7.0, 5.0, 9.0, 4.0, 6.0].iter().map(|d| Some(key(*d))).collect();
    assert_eq!(nearest_hit(&hits), Some(3));
}

#[test]
fn nearest_hit_keeps_the_first_of_equal_distances() {
    let hits = vec![Some(key(2.0)), Some(key(1.0)), Some(key(1.0)), Some(key(2.0))];
    assert_eq!(nearest_hit(&hits), Some(1));
}

#[test]
fn nearest_hit_ignores_infinitely_distant_hits() {
    assert_eq!(nearest_hit(&vec![Some(key(f32::INFINITY))]), None);
    let hits = vec![Some(key(f32::INFINITY)), Some(key(f32::MAX))];
    assert_eq!(nearest_hit(&hits), Some(1));
    assert_eq!(nearest_hit(&vec![Some(key(0.0))]), Some(0));
}

#[test]
fn nearest_hit_ignores_what_is_no_number() {
    assert_eq!(nearest_hit(&vec![Some(key(f32::NAN))]), None);
    assert_eq!(nearest_hit(&vec![Some(key(f32::NAN)), Some(key(-f32::NAN))]), None);
    let hits = vec![Some(key(f32::NAN)), Some(key(3.0)), Some(key(f32::NAN)), Some(key(2.0))];
    assert_eq!(nearest_hit(&hits), Some(3));
}

#[test]
fn nearest_hit_compares_as_numbers_do() {
    // the two zeros are equally close: the first one stays
    assert_eq!(nearest_hit(&vec![Some(key(0.0)), Some(key(-0.0))]), Some(0));
    assert_eq!(nearest_hit(&vec![Some(key(-0.0)), Some(key(0.0))]), Some(0));
    // a negative distance is smaller than a positive one
    assert_eq!(nearest_hit(&vec![Some(key(1.0)), Some(key(-2.0)), Some(key(-1.0))]), Some(1));
    assert_eq!(nearest_hit(&vec![Some(key(f32::NEG_INFINITY)), Some(key(-1.0))]), Some(0));
}

#[test]
fn intersectable_faces_are_the_box_hits_in_order() {
    let probes = vec![
        FaceProbe::BoxHit,
        FaceProbe::Culled,
        FaceProbe::BoxMissed,
        FaceProbe::BoxHit,
        FaceProbe::BoxHit,
        FaceProbe::Culled,
        FaceProbe::BoxMissed,
        FaceProbe::BoxHit,
    ];
    assert_eq!(intersectable_faces(&probes), vec![0, 3, 4, 7]);
    assert_eq!(intersectable_faces(&vec![]), Vec::<usize>::new());
    assert_eq!(
        intersectable_faces(&vec![FaceProbe::Culled, FaceProbe::BoxMissed]),
        Vec::<usize>::new()
    );
}

#[test]
fn is_listed_finds_members_only() {
    let list = vec![0, 3, 4, 7];
    assert!(is_listed(&list, 0));
    assert!(is_listed(&list, 7));
    assert!(!is_listed(&list, 1));
    assert!(!is_listed(&list, 8));
    assert!(!is_listed(&vec![], 0));
}

#[test]
fn find_returns_the_closest_sticker_of_intersectable_faces() {
    let probes = vec![FaceProbe::BoxHit, FaceProbe::Culled, FaceProbe::BoxHit];
    let face_ids = vec![0, 0, 1, 1, 2, 2];
    let hits = vec![
        Some(key(9.0)),
        None,
        Some(key(1.0)), // closest of all, but its cell is culled
        Some(key(2.0)),
        Some(key(5.0)),
        Some(key(6.0)),
    ];
    assert_eq!(find_intersected_sticker(&probes, &face_ids, &hits), Some(4));
}

#[test]
fn find_returns_none_without_a_counted_hit() {
    let face_ids = vec![0, 1, 2];
    let hits = vec![Some(key(1.0)), Some(key(2.0)), Some(key(3.0))];
    let culled = vec![FaceProbe::Culled, FaceProbe::BoxMissed, FaceProbe::Culled];
    assert_eq!(find_intersected_sticker(&culled, &face_ids, &hits), None);
    let open = vec![FaceProbe::BoxHit, FaceProbe::BoxHit, FaceProbe::BoxHit];
    assert_eq!(find_intersected_sticker(&open, &face_ids, &vec![None, None, None]), None);
    assert_eq!(find_intersected_sticker(&open, &vec![], &vec![]), None);
    assert_eq!(find_intersected_sticker(&vec![], &face_ids, &hits), None);
}

#[test]
fn find_keeps_the_first_sticker_among_equal_distances() {
    let probes = vec![FaceProbe::BoxHit; 8];
    let face_ids = vec![7, 6, 5, 4];
    let hits = vec![Some(key(4.0)), Some(key(2.5)), Some(key(2.5)), Some(key(4.0))];
    assert_eq!(find_intersected_sticker(&probes, &face_ids, &hits), Some(1));
}

#[test]
fn find_ignores_stickers_of_unknown_faces_and_unpaired_entries() {
    let probes = vec![FaceProbe::BoxHit, FaceProbe::BoxHit];
    // cell 2 was never probed; the fourth hit has no cell
    let face_ids = vec![2, 1, 0];
    let hits = vec![Some(key(1.0)), Some(key(3.0)), Some(key(2.0)), Some(key(0.5))];
    assert_eq!(find_intersected_sticker(&probes, &face_ids, &hits), Some(2));
    // more cells than hits: the surplus cells are left out
    let face_ids = vec![0, 1, 0, 1];
    let hits = vec![Some(key(8.0)), Some(key(7.0))];
    assert_eq!(find_intersected_sticker(&probes, &face_ids, &hits), Some(1));
}

#[test]
fn find_ignores_infinitely_distant_hits() {
    let probes = vec![FaceProbe::BoxHit];
    let face_ids = vec![0, 0];
    assert_eq!(
        find_intersected_sticker(&probes, &face_ids, &vec![Some(key(f32::INFINITY)), None]),
        None
    );
    assert_eq!(
        find_intersected_sticker(
            &probes,
            &face_ids,
            &vec![Some(key(f32::INFINITY)), Some(key(f32::MAX))]
        ),
        Some(1)
    );
    assert_eq!(
        find_intersected_sticker(&probes, &face_ids, &vec![Some(key(f32::NAN)), Some(key(f32::NAN))]),
        None
    );
}

#[test]
fn find_is_deterministic() {
    let probes = vec![FaceProbe::BoxHit, FaceProbe::BoxMissed, FaceProbe::BoxHit];
    let face_ids = vec![0, 1, 2, 2, 0];
    let hits = vec![Some(key(3.0)), Some(key(0.1)), None, Some(key(2.0)), Some(key(2.0))];
    let first = find_intersected_sticker(&probes, &face_ids, &hits);
    for _ in 0..10 {
        assert_eq!(find_intersected_sticker(&probes, &face_ids, &hits), first);
    }
    assert_eq!(first, Some(3));
}
