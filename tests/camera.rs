use voxel_diorama::camera::{clamp, CameraInput, OrbitCamera, Point3};

fn idle() -> CameraInput {
    CameraInput {
        rotate_held: false,
        drag_x: 0,
        drag_y: 0,
        scroll: 0,
        forward: false,
        backward: false,
        left: false,
        right: false,
        reset_pressed: false,
    }
}

fn camera() -> OrbitCamera {
    OrbitCamera::new(Point3 { x: 40, y: 60, z: 50 }, 250)
}

fn check_limits(c: &OrbitCamera) {
    assert!(c.min_distance <= c.distance && c.distance <= c.max_distance);
    assert!(-890 <= c.angle_y && c.angle_y <= 890);
}

#[test]
fn new_starts_at_default_angles() {
    let c = camera();
    assert_eq!((c.angle_x, c.angle_y, c.distance), (450, -300, 250));
    assert_eq!((c.min_distance, c.max_distance), (50, 500));
    assert_eq!(c.target, Point3 { x: 40, y: 60, z: 50 });
}

#[test]
fn new_keeps_the_distance_until_the_first_update() {
    let mut near = OrbitCamera::new(Point3 { x: 0, y: 0, z: 0 }, 0);
    assert_eq!(near.distance, 0);
    let mut far = OrbitCamera::new(Point3 { x: 0, y: 0, z: 0 }, 9000);
    assert_eq!(far.distance, 9000);
    near.update(&idle());
    far.update(&idle());
    assert_eq!(near.distance, 50);
    assert_eq!(far.distance, 500);
}

#[test]
fn target_holds_tenths() {
    let c = OrbitCamera::new(Point3 { x: 45, y: 60, z: 50 }, 250);
    assert_eq!(c.target, Point3 { x: 45, y: 60, z: 50 });
}

#[test]
fn drag_rotates_only_while_held() {
    let mut c = camera();
    c.update(&CameraInput { drag_x: 10, drag_y: -5, ..idle() });
    assert_eq!((c.angle_x, c.angle_y), (450, -300));
    c.update(&CameraInput { rotate_held: true, drag_x: 10, drag_y: -5, ..idle() });
    assert_eq!((c.angle_x, c.angle_y), (480, -315));
}

#[test]
fn elevation_is_clamped() {
    let mut c = camera();
    c.update(&CameraInput { rotate_held: true, drag_y: 1000, ..idle() });
    assert_eq!(c.angle_y, 890);
    c.update(&CameraInput { rotate_held: true, drag_y: -100000, ..idle() });
    assert_eq!(c.angle_y, -890);
}

#[test]
fn azimuth_accumulates() {
    let mut c = camera();
    c.update(&CameraInput { rotate_held: true, drag_x: -200, ..idle() });
    assert_eq!(c.angle_x, -150);
    c.update(&CameraInput { left: true, ..idle() });
    assert_eq!(c.angle_x, -170);
    c.update(&CameraInput { rotate_held: true, drag_x: 1300, ..idle() });
    assert_eq!(c.angle_x, 3730);
    c.update(&CameraInput { right: true, ..idle() });
    assert_eq!(c.angle_x, 3750);
}

#[test]
fn wheel_zooms_and_is_clamped() {
    let mut c = camera();
    c.update(&CameraInput { scroll: 10, ..idle() });
    assert_eq!(c.distance, 230);
    c.update(&CameraInput { scroll: -25, ..idle() });
    assert_eq!(c.distance, 280);
    c.update(&CameraInput { scroll: i32::MAX, ..idle() });
    assert_eq!(c.distance, 50);
    c.update(&CameraInput { scroll: i32::MIN, ..idle() });
    assert_eq!(c.distance, 500);
}

#[test]
fn keys_zoom_by_half_units() {
    let mut c = camera();
    c.update(&CameraInput { forward: true, ..idle() });
    assert_eq!(c.distance, 245);
    c.update(&CameraInput { backward: true, ..idle() });
    c.update(&CameraInput { backward: true, ..idle() });
    assert_eq!(c.distance, 255);
    c.update(&CameraInput { forward: true, backward: true, ..idle() });
    assert_eq!(c.distance, 255);
}

#[test]
fn wheel_clamps_before_the_keys() {
    let mut c = camera();
    c.update(&CameraInput { scroll: 1000, backward: true, ..idle() });
    assert_eq!(c.distance, 55);
}

#[test]
fn keys_cannot_pass_the_minimum() {
    let mut c = OrbitCamera::new(Point3 { x: 0, y: 0, z: 0 }, 50);
    c.update(&CameraInput { forward: true, ..idle() });
    assert_eq!(c.distance, 50);
}

#[test]
fn reset_restores_the_default_pose() {
    let mut c = camera();
    c.update(&CameraInput { rotate_held: true, drag_x: 77, drag_y: 99, scroll: -40, left: true, ..idle() });
    assert_ne!((c.angle_x, c.angle_y, c.distance), (450, -300, 250));
    c.update(&CameraInput { reset_pressed: true, rotate_held: true, drag_x: 5, scroll: 3, forward: true, ..idle() });
    assert_eq!((c.angle_x, c.angle_y, c.distance), (450, -300, 250));
    assert_eq!(c.target, Point3 { x: 40, y: 60, z: 50 });
}

#[test]
fn limits_hold_through_extreme_input() {
    let mut c = camera();
    let inputs = [
        CameraInput { rotate_held: true, drag_x: i32::MAX, drag_y: i32::MAX, scroll: i32::MAX, ..idle() },
        CameraInput { rotate_held: true, drag_x: i32::MIN, drag_y: i32::MIN, scroll: i32::MIN, ..idle() },
        CameraInput { backward: true, right: true, ..idle() },
        CameraInput { forward: true, left: true, scroll: 1, ..idle() },
        CameraInput { reset_pressed: true, ..idle() },
    ];
    for _ in 0..50 {
        for input in &inputs {
            c.update(input);
            check_limits(&c);
        }
    }
}

#[test]
fn clamp_brings_values_within_bounds() {
    assert_eq!(clamp(7, 0, 5), 5);
    assert_eq!(clamp(-7, 0, 5), 0);
    assert_eq!(clamp(3, 0, 5), 3);
}
