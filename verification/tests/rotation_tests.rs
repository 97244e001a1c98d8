use hypercube::rotation::MatrixEntry::{Cos, NegSin, One, Sin, Zero};
use hypercube::rotation::{MatrixEntry, RotationPlane};
use nalgebra::{Matrix4, Vector4};

const PLANES: [RotationPlane; 6] = [
    RotationPlane::XY,
    RotationPlane::XZ,
    RotationPlane::XW,
    RotationPlane::YZ,
    RotationPlane::YW,
    RotationPlane::ZW,
];

fn rotation(plane: RotationPlane, angle: f32) -> Matrix4<f32> {
    let (cos, sin) = (angle.cos(), angle.sin());
    Matrix4::from_fn(|row, col| match plane.entry(row, col) {
        MatrixEntry::Zero => 0.0,
        MatrixEntry::One => 1.0,
        MatrixEntry::Cos => cos,
        MatrixEntry::Sin => sin,
        MatrixEntry::NegSin => -sin,
    })
}

fn accumulate(current: &Matrix4<f32>, delta_x: f32, delta_y: f32) -> Matrix4<f32> {
    let angle_x = -delta_x * 0.5 * 0.01;
    let angle_y = -delta_y * 0.5 * 0.01;
    rotation(RotationPlane::YW, angle_y) * rotation(RotationPlane::XW, angle_x) * current
}

#[test]
fn axes_of_the_six_planes() {
    assert_eq!(RotationPlane::XY.axes(), (0, 1));
    assert_eq!(RotationPlane::XZ.axes(), (0, 2));
    assert_eq!(RotationPlane::XW.axes(), (0, 3));
    assert_eq!(RotationPlane::YZ.axes(), (1, 2));
    assert_eq!(RotationPlane::YW.axes(), (1, 3));
    assert_eq!(RotationPlane::ZW.axes(), (2, 3));
}

#[test]
fn entries_of_the_xw_rotation() {
    let expected = [
        [Cos, Zero, Zero, NegSin],
        [Zero, One, Zero, Zero],
        [Zero, Zero, One, Zero],
        [Sin, Zero, Zero, Cos],
    ];
    for row in 0..4 {
        for col in 0..4 {
            assert_eq!(RotationPlane::XW.entry(row, col), expected[row][col]);
        }
    }
}

#[test]
fn entries_of_the_yw_rotation() {
    let expected = [
        [One, Zero, Zero, Zero],
        [Zero, Cos, Zero, NegSin],
        [Zero, Zero, One, Zero],
        [Zero, Sin, Zero, Cos],
    ];
    for row in 0..4 {
        for col in 0..4 {
            assert_eq!(RotationPlane::YW.entry(row, col), expected[row][col]);
        }
    }
}

#[test]
fn entries_are_the_identity_outside_the_plane() {
    for plane in PLANES {
        let (a, b) = plane.axes();
        for row in 0..4 {
            for col in 0..4 {
                let entry = plane.entry(row, col);
                if row != a && row != b || col != a && col != b {
                    let expected = if row == col { MatrixEntry::One } else { MatrixEntry::Zero };
                    assert_eq!(entry, expected);
                }
            }
        }
        assert_eq!(plane.entry(a, a), MatrixEntry::Cos);
        assert_eq!(plane.entry(b, b), MatrixEntry::Cos);
        assert_eq!(plane.entry(a, b), MatrixEntry::NegSin);
        assert_eq!(plane.entry(b, a), MatrixEntry::Sin);
    }
}

#[test]
fn matrix_from_the_layout_matches_the_written_out_xw_and_yw_matrices() {
    let angle = 0.37_f32;
    let (c, s) = (angle.cos(), angle.sin());
    let xw = Matrix4::new(
        c, 0.0, 0.0, -s, 0.0, 1.0, 0.0, 0.0, 0.0, 0.0, 1.0, 0.0, s, 0.0, 0.0, c,
    );
    let yw = Matrix4::new(
        1.0, 0.0, 0.0, 0.0, 0.0, c, 0.0, -s, 0.0, 0.0, 1.0, 0.0, 0.0, s, 0.0, c,
    );
    assert_eq!(rotation(RotationPlane::XW, angle), xw);
    assert_eq!(rotation(RotationPlane::YW, angle), yw);
}

#[test]
fn zero_deltas_leave_the_rotation_unchanged() {
    let current = accumulate(&Matrix4::identity(), 37.0, -12.0);
    assert_eq!(accumulate(&current, 0.0, 0.0), current);
    assert_eq!(accumulate(&Matrix4::identity(), 0.0, 0.0), Matrix4::identity());
    for plane in PLANES {
        assert_eq!(rotation(plane, 0.0), Matrix4::identity());
    }
}

#[test]
fn accumulation_order_matters() {
    let start = Matrix4::identity();
    let a_then_b = accumulate(&accumulate(&start, 120.0, 0.0), 0.0, 90.0);
    let b_then_a = accumulate(&accumulate(&start, 0.0, 90.0), 120.0, 0.0);
    assert!((a_then_b - b_then_a).norm() > 1e-3);
}

#[test]
fn accumulated_rotation_preserves_the_norm() {
    let mut rotation_4d = Matrix4::identity();
    let deltas = [(13.0, -7.0), (250.0, 31.0), (-90.5, 400.0), (1.0, 1.0), (-333.0, -2.5)];
    let points = [
        Vector4::new(1.0_f32, 0.0, 0.0, 0.0),
        Vector4::new(0.0, 0.0, 0.0, 1.0),
        Vector4::new(-2.0 / 3.0, 2.0 / 3.0, 0.0, 1.0),
        Vector4::new(3.5, -1.25, 0.75, -2.0),
    ];
    for (dx, dy) in deltas {
        rotation_4d = accumulate(&rotation_4d, dx, dy);
        for p in points {
            assert!(((rotation_4d * p).norm() - p.norm()).abs() < 1e-5);
        }
    }
    // orthogonal: the transpose is the inverse
    let product = rotation_4d.transpose() * rotation_4d;
    assert!((product - Matrix4::identity()).norm() < 1e-5);
}

#[test]
fn every_elementary_rotation_preserves_the_norm() {
    let p = Vector4::new(0.3_f32, -1.7, 2.2, 0.9);
    for plane in PLANES {
        for angle in [0.1_f32, 1.0, -2.5, 3.1] {
            let image = rotation(plane, angle) * p;
            assert!((image.norm() - p.norm()).abs() < 1e-5);
            let (a, b) = plane.axes();
            for axis in 0..4 {
                if axis != a && axis != b {
                    assert_eq!(image[axis], p[axis]);
                }
            }
        }
    }
}
