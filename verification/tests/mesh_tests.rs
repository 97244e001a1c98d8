use hypercube::mesh::{
    cube_vertex, triangle_corners, wind_triangles, BASE_INDICES, CORNER_COUNT, CUBE_CORNERS, CUBE_VERTICES,
    SIDE_AXES, SIDE_COUNT, SIDE_SIGNS, TRIANGLE_CORNERS, TRIANGLE_COUNT,
};

#[test]
fn corners_are_the_eight_sign_patterns() {
    assert_eq!(CUBE_CORNERS.len(), CORNER_COUNT);
    for (a, corner) in CUBE_CORNERS.iter().enumerate() {
        for c in corner {
            assert!(*c == 1 || *c == -1);
        }
        for b in 0..a {
            assert_ne!(CUBE_CORNERS[a], CUBE_CORNERS[b]);
        }
    }
    assert_eq!(CUBE_CORNERS[0], [-1, -1, -1]);
    assert_eq!(CUBE_CORNERS[6], [1, 1, 1]);
}

#[test]
fn triangle_corners_reads_the_table() {
    assert_eq!(triangle_corners(0), [0, 1, 2]);
    assert_eq!(triangle_corners(1), [2, 3, 0]);
    assert_eq!(triangle_corners(2), [1, 5, 6]);
    assert_eq!(triangle_corners(5), [7, 6, 5]);
    assert_eq!(triangle_corners(11), [1, 0, 4]);
    for t in 0..TRIANGLE_COUNT {
        let corners = triangle_corners(t);
        for k in 0..3 {
            assert_eq!(corners[k], TRIANGLE_CORNERS[3 * t + k]);
            assert!(corners[k] < CORNER_COUNT);
        }
        assert!(corners[0] != corners[1] && corners[1] != corners[2] && corners[0] != corners[2]);
    }
}

#[test]
fn every_triangle_lies_in_its_side() {
    for t in 0..TRIANGLE_COUNT {
        let side = t / 2;
        for corner in triangle_corners(t) {
            assert_eq!(CUBE_CORNERS[corner][SIDE_AXES[side]], SIDE_SIGNS[side]);
        }
    }
}

#[test]
fn two_triangles_cover_the_four_corners_of_a_side() {
    for side in 0..SIDE_COUNT {
        let mut used: Vec<usize> = Vec::new();
        for t in [2 * side, 2 * side + 1] {
            for corner in triangle_corners(t) {
                if !used.contains(&corner) {
                    used.push(corner);
                }
            }
        }
        used.sort();
        let on_side: Vec<usize> = (0..CORNER_COUNT)
            .filter(|&c| CUBE_CORNERS[c][SIDE_AXES[side]] == SIDE_SIGNS[side])
            .collect();
        assert_eq!(on_side.len(), 4);
        assert_eq!(used, on_side);
    }
}

#[test]
fn vertex_list_is_the_corner_table_read_through_the_triangles() {
    for index in 0..36 {
        assert_eq!(cube_vertex(index), CUBE_VERTICES[index]);
        assert_eq!(cube_vertex(index), CUBE_CORNERS[TRIANGLE_CORNERS[index]]);
    }
    assert_eq!(cube_vertex(0), [-1, -1, -1]);
    assert_eq!(cube_vertex(7), [1, -1, 1]);
    assert_eq!(cube_vertex(35), [-1, -1, 1]);
}

#[test]
fn base_indices_are_the_identity() {
    for (i, index) in BASE_INDICES.iter().enumerate() {
        assert_eq!(*index as usize, i);
    }
}

#[test]
fn unflipped_triangles_keep_the_base_order() {
    let indices = wind_triangles(&vec![false; 12]);
    assert_eq!(indices, BASE_INDICES.to_vec());
    assert_eq!(wind_triangles(&vec![]), Vec::<u16>::new());
}

#[test]
fn flipped_triangles_exchange_their_last_two_vertices() {
    let indices = wind_triangles(&vec![true, false, true]);
    assert_eq!(indices, vec![0, 2, 1, 3, 4, 5, 6, 8, 7]);
    let all = wind_triangles(&vec![true; 12]);
    for t in 0..12 {
        assert_eq!(all[3 * t], (3 * t) as u16);
        assert_eq!(all[3 * t + 1], (3 * t + 2) as u16);
        assert_eq!(all[3 * t + 2], (3 * t + 1) as u16);
    }
}

#[test]
fn triangle_list_repeats_for_every_cell() {
    let mut flipped = vec![false; 96];
    flipped[12] = true;
    flipped[95] = true;
    let indices = wind_triangles(&flipped);
    assert_eq!(indices.len(), 288);
    assert_eq!(&indices[0..36], &BASE_INDICES[..]);
    assert_eq!(&indices[36..39], &[0, 2, 1]);
    assert_eq!(&indices[39..72], &BASE_INDICES[3..]);
    assert_eq!(&indices[285..288], &[33, 35, 34]);
}
