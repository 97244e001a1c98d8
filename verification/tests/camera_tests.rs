use hypercube::camera::{
    CameraController, MAX_DISTANCE_BITS, MAX_PITCH_BITS, MIN_DISTANCE_BITS, MIN_PITCH_BITS,
};
use hypercube::scalar::Scalar;

const SENSITIVITY: f32 = 0.5;

fn scalar(value: f32) -> Scalar {
    Scalar::from_bits(value.to_bits())
}

fn number(scalar: Scalar) -> f32 {
    f32::from_bits(scalar.bits)
}

fn controller() -> CameraController {
    CameraController::new(scalar(15.0))
}

fn drag(camera: &mut CameraController, delta_x: f32, delta_y: f32) {
    let yaw = number(camera.yaw) - delta_x * SENSITIVITY;
    let pitch = number(camera.pitch) + delta_y * SENSITIVITY;
    camera.process_mouse_motion(scalar(yaw), scalar(pitch));
}

fn scroll(camera: &mut CameraController, delta: f32) {
    let distance = number(camera.distance) - delta;
    camera.process_scroll(scalar(distance));
}

#[test]
fn limits_are_those_of_the_numbers() {
    assert_eq!(MIN_DISTANCE_BITS, 5.0_f32.to_bits());
    assert_eq!(MAX_DISTANCE_BITS, 50.0_f32.to_bits());
    assert_eq!(MAX_PITCH_BITS, 89.0_f32.to_bits());
    assert_eq!(MIN_PITCH_BITS, (-89.0_f32).to_bits());
}

#[test]
fn new_camera_is_level_and_straight() {
    let camera = controller();
    assert_eq!(number(camera.distance), 15.0);
    assert_eq!(number(camera.yaw), 0.0);
    assert_eq!(number(camera.pitch), 0.0);
}

#[test]
fn motion_moves_yaw_and_pitch() {
    let mut camera = controller();
    drag(&mut camera, 10.0, 20.0);
    assert_eq!(number(camera.yaw), -5.0);
    assert_eq!(number(camera.pitch), 10.0);
    assert_eq!(number(camera.distance), 15.0);
    drag(&mut camera, -30.0, -50.0);
    assert_eq!(number(camera.yaw), 10.0);
    assert_eq!(number(camera.pitch), -15.0);
}

#[test]
fn pitch_never_exceeds_89_degrees() {
    let mut camera = controller();
    for _ in 0..100 {
        drag(&mut camera, 0.0, 1000.0);
        assert!(number(camera.pitch) <= 89.0);
    }
    assert_eq!(number(camera.pitch), 89.0);
    drag(&mut camera, 0.0, f32::MAX);
    assert_eq!(number(camera.pitch), 89.0);
    drag(&mut camera, 0.0, f32::INFINITY);
    assert_eq!(number(camera.pitch), 89.0);
}

#[test]
fn pitch_never_falls_below_minus_89_degrees() {
    let mut camera = controller();
    for _ in 0..100 {
        drag(&mut camera, 0.0, -1000.0);
        assert!(number(camera.pitch) >= -89.0);
    }
    assert_eq!(number(camera.pitch), -89.0);
    drag(&mut camera, 0.0, f32::NEG_INFINITY);
    assert_eq!(number(camera.pitch), -89.0);
}

#[test]
fn pitch_moves_freely_within_its_range() {
    let mut camera = controller();
    drag(&mut camera, 0.0, 177.0);
    assert_eq!(number(camera.pitch), 88.5);
    drag(&mut camera, 0.0, 1.0);
    assert_eq!(number(camera.pitch), 89.0);
    drag(&mut camera, 0.0, 1.0);
    assert_eq!(number(camera.pitch), 89.0);
    drag(&mut camera, 0.0, -1.0);
    assert_eq!(number(camera.pitch), 88.5);
}

#[test]
fn scrolling_in_never_goes_below_5() {
    let mut camera = controller();
    for _ in 0..100 {
        scroll(&mut camera, 3.0);
        assert!(number(camera.distance) >= 5.0);
    }
    assert_eq!(number(camera.distance), 5.0);
    scroll(&mut camera, f32::INFINITY);
    assert_eq!(number(camera.distance), 5.0);
}

#[test]
fn scrolling_out_never_goes_above_50() {
    let mut camera = controller();
    for _ in 0..100 {
        scroll(&mut camera, -3.0);
        assert!(number(camera.distance) <= 50.0);
    }
    assert_eq!(number(camera.distance), 50.0);
    scroll(&mut camera, f32::NEG_INFINITY);
    assert_eq!(number(camera.distance), 50.0);
}

#[test]
fn scrolling_moves_the_distance_within_its_range() {
    let mut camera = controller();
    scroll(&mut camera, 2.5);
    assert_eq!(number(camera.distance), 12.5);
    scroll(&mut camera, -30.0);
    assert_eq!(number(camera.distance), 42.5);
    assert_eq!(number(camera.yaw), 0.0);
    assert_eq!(number(camera.pitch), 0.0);
}

#[test]
fn what_is_no_number_changes_nothing() {
    let mut camera = controller();
    drag(&mut camera, 4.0, 6.0);
    camera.process_mouse_motion(scalar(f32::NAN), scalar(f32::NAN));
    assert_eq!(number(camera.yaw), -2.0);
    assert_eq!(number(camera.pitch), 3.0);
    camera.process_mouse_motion(scalar(7.0), scalar(f32::NAN));
    assert_eq!(number(camera.yaw), 7.0);
    assert_eq!(number(camera.pitch), 3.0);
    camera.process_scroll(scalar(f32::NAN));
    assert_eq!(number(camera.distance), 15.0);
}
