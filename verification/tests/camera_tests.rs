use pathfinder_demo::camera::{
    saturating_sum, CameraMotion, CameraState, Vector3, CAMERA_VELOCITY,
    MOUSELOOK_ROTATION_SPEED, SUBUNITS_PER_UNIT,
};
use pathfinder_demo::event::Keycode;
use pathfinder_geometry::transform3d::Transform4F;
use pathfinder_geometry::vector::Vector4F;

fn units(value: i64) -> i64 {
    value * SUBUNITS_PER_UNIT
}

/// Rotates a camera-space velocity into the world as the viewer does, with
/// the outside crate's rotation.
fn rotate(velocity: Vector3, yaw: i64, pitch: i64) -> Vector3 {
    let scale = SUBUNITS_PER_UNIT as f32;
    let yaw = yaw as f32 / 1_000_000.0;
    let pitch = pitch as f32 / 1_000_000.0;
    let rotation = Transform4F::from_rotation(-yaw, -pitch, 0.0);
    let rotated = rotation
        * Vector4F::new(
            velocity.x as f32 / scale,
            velocity.y as f32 / scale,
            velocity.z as f32 / scale,
            1.0,
        );
    Vector3::new(
        (rotated.x() * scale).round() as i64,
        (rotated.y() * scale).round() as i64,
        (rotated.z() * scale).round() as i64,
    )
}

#[test]
fn constants_have_their_values() {
    assert_eq!(SUBUNITS_PER_UNIT, 65536);
    assert_eq!(CAMERA_VELOCITY, 25 * 65536);
    assert_eq!(MOUSELOOK_ROTATION_SPEED, 7000);
}

#[test]
fn new_camera_rests_at_its_starting_place() {
    let camera = CameraState::new();
    assert_eq!(camera.position, Vector3 { x: units(500), y: units(500), z: units(3000) });
    assert_eq!(camera.velocity, Vector3 { x: 0, y: 0, z: 0 });
    assert_eq!((camera.yaw, camera.pitch), (0, 0));
    assert_eq!(camera.motion(), CameraMotion::Idle);
}

#[test]
fn direction_keys_set_one_axis_each() {
    let mut camera = CameraState::new();
    camera.key_down(Keycode::W);
    assert_eq!(camera.velocity, Vector3 { x: 0, y: 0, z: -units(25) });
    camera.key_down(Keycode::D);
    assert_eq!(camera.velocity, Vector3 { x: units(25), y: 0, z: -units(25) });
    camera.key_down(Keycode::S);
    assert_eq!(camera.velocity, Vector3 { x: units(25), y: 0, z: units(25) });
    camera.key_down(Keycode::A);
    assert_eq!(camera.velocity, Vector3 { x: -units(25), y: 0, z: units(25) });
}

#[test]
fn key_up_clears_the_axis_of_its_key() {
    let mut camera = CameraState::new();
    camera.key_down(Keycode::W);
    camera.key_down(Keycode::A);
    camera.key_up(Keycode::S);
    assert_eq!(camera.velocity, Vector3 { x: -units(25), y: 0, z: 0 });
    camera.key_up(Keycode::D);
    assert_eq!(camera.velocity, Vector3 { x: 0, y: 0, z: 0 });
}

#[test]
fn other_keys_leave_the_camera_alone() {
    let mut camera = CameraState::new();
    camera.key_down(Keycode::W);
    let before = camera;
    camera.key_down(Keycode::Other);
    camera.key_down(Keycode::Escape);
    camera.key_up(Keycode::Other);
    camera.key_up(Keycode::Escape);
    assert_eq!(camera, before);
}

#[test]
fn look_turns_by_the_rotation_speed_per_pixel() {
    let mut camera = CameraState::new();
    camera.look(10, 4);
    assert_eq!((camera.yaw, camera.pitch), (70_000, -28_000));
    camera.look(-3, -6);
    assert_eq!((camera.yaw, camera.pitch), (49_000, 14_000));
    assert_eq!(camera.position, CameraState::new().position);
}

#[test]
fn look_stops_at_the_largest_angle() {
    let mut camera = CameraState::new();
    camera.yaw = i64::MAX - 1;
    camera.pitch = i64::MIN + 1;
    camera.look(1, 1);
    assert_eq!((camera.yaw, camera.pitch), (i64::MAX, i64::MIN));
}

#[test]
fn motion_reports_velocity_and_angles() {
    let mut camera = CameraState::new();
    camera.look(2, 1);
    camera.key_down(Keycode::S);
    assert_eq!(
        camera.motion(),
        CameraMotion::Moving {
            velocity: Vector3 { x: 0, y: 0, z: units(25) },
            yaw: 14_000,
            pitch: -7_000,
        }
    );
}

#[test]
fn step_of_a_camera_at_rest_keeps_the_position() {
    let mut camera = CameraState::new();
    camera.look(300, -200);
    let before = camera;
    camera.step(None);
    assert_eq!(camera, before);
    camera.step(Some(Vector3::new(units(9), units(9), units(9))));
    assert_eq!(camera, before);
}

#[test]
fn step_without_a_rotated_velocity_keeps_the_position() {
    let mut camera = CameraState::new();
    camera.key_down(Keycode::W);
    let before = camera;
    camera.step(None);
    assert_eq!(camera, before);
}

#[test]
fn step_adds_the_rotated_velocity() {
    let mut camera = CameraState::new();
    camera.key_down(Keycode::D);
    camera.step(Some(Vector3::new(3, -4, 5)));
    assert_eq!(
        camera.position,
        Vector3 { x: units(500) + 3, y: units(500) - 4, z: units(3000) + 5 }
    );
}

#[test]
fn step_forward_with_level_gaze_moves_twenty_five_units_along_z() {
    let mut camera = CameraState::new();
    camera.key_down(Keycode::W);
    let rotated = match camera.motion() {
        CameraMotion::Moving { velocity, yaw, pitch } => rotate(velocity, yaw, pitch),
        CameraMotion::Idle => panic!("the camera should be moving"),
    };
    camera.step(Some(rotated));
    assert_eq!(camera.position.x, units(500));
    assert_eq!(camera.position.y, units(500));
    assert_eq!(camera.position.z, units(3000) - units(25));
}

#[test]
fn rotation_of_a_velocity_keeps_its_length() {
    let mut camera = CameraState::new();
    camera.look(100, 0);
    camera.key_down(Keycode::W);
    let rotated = match camera.motion() {
        CameraMotion::Moving { velocity, yaw, pitch } => rotate(velocity, yaw, pitch),
        CameraMotion::Idle => panic!("the camera should be moving"),
    };
    let length = ((rotated.x as f64).powi(2) + (rotated.y as f64).powi(2)
        + (rotated.z as f64).powi(2))
    .sqrt();
    assert!((length - units(25) as f64).abs() < 64.0);
    assert!(rotated.x != 0);
}

#[test]
fn vector_sum_stops_at_the_bounds() {
    let sum = Vector3::new(i64::MAX, i64::MIN, 1).saturating_add(Vector3::new(1, -1, 2));
    assert_eq!(sum, Vector3 { x: i64::MAX, y: i64::MIN, z: 3 });
}

#[test]
fn saturating_sum_is_the_sum_where_it_fits() {
    assert_eq!(saturating_sum(40, 2), 42);
    assert_eq!(saturating_sum(-40, -2), -42);
    assert_eq!(saturating_sum(i64::MAX, 1), i64::MAX);
    assert_eq!(saturating_sum(i64::MIN, -1), i64::MIN);
    assert_eq!(saturating_sum(i64::MAX, i64::MIN), -1);
}

#[test]
fn vector_is_zero_only_with_all_components_zero() {
    assert!(Vector3::new(0, 0, 0).is_zero());
    assert!(!Vector3::new(0, 1, 0).is_zero());
    assert!(!Vector3::new(0, 0, -1).is_zero());
}
