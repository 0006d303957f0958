use depth_peel::camera::{Camera, CameraController, KeyCode, MOTION_LIMIT, ONE, PITCH_LIMIT, TURN};

fn held_keys() -> CameraController {
    let mut c = CameraController::new(2_000_000, 2);
    for k in [KeyCode::W, KeyCode::D, KeyCode::Space] {
        assert!(c.process_keyboard(k, true));
    }
    c
}

#[test]
fn zero_dt_keeps_camera() {
    let mut ctrl = held_keys();
    let mut cam = Camera::new(10, -20, 30, 1_000_000, 400_000);
    let before = cam;
    ctrl.update_camera(&mut cam, 0, 600_000, 800_000);
    assert_eq!(cam, before);
    ctrl.update_camera(&mut cam, 0, -ONE as i32, 0);
    assert_eq!(cam, before);
}

#[test]
fn pending_motion_turns_without_elapsed_time() {
    let mut ctrl = held_keys();
    ctrl.process_mouse(50_000, -70_000);
    let mut cam = Camera::new(10, -20, 30, 1_000_000, 400_000);
    ctrl.update_camera(&mut cam, 0, 600_000, 800_000);
    assert_eq!((cam.x, cam.y, cam.z), (10, -20, 30));
    assert_eq!(cam.yaw, 1_100_000);
    assert_eq!(cam.pitch, 540_000);
    assert_eq!((ctrl.rotate_horizontal, ctrl.rotate_vertical), (0, 0));
}

#[test]
fn pitch_is_clamped_for_huge_motion() {
    let mut ctrl = CameraController::new(2_000_000, u32::MAX);
    let mut cam = Camera::new(0, 0, 0, 0, 0);
    for _ in 0..1000 {
        ctrl.process_mouse(i32::MAX, i32::MIN);
    }
    assert_eq!(ctrl.rotate_vertical, -MOTION_LIMIT);
    ctrl.update_camera(&mut cam, u32::MAX, ONE as i32, 0);
    assert_eq!(cam.pitch, PITCH_LIMIT);
    assert!(cam.yaw >= 0 && cam.yaw < TURN);
    for _ in 0..10 {
        ctrl.process_mouse(0, i32::MAX);
        ctrl.update_camera(&mut cam, u32::MAX, ONE as i32, 0);
        assert!(cam.pitch.abs() <= PITCH_LIMIT);
    }
    assert_eq!(cam.pitch, -PITCH_LIMIT);
}

#[test]
fn forward_moves_along_heading() {
    let mut ctrl = CameraController::new(2_000_000, 2);
    assert!(ctrl.process_keyboard(KeyCode::Up, true));
    let mut cam = Camera::new(0, 0, 0, 0, 0);
    ctrl.update_camera(&mut cam, 1_000_000, ONE as i32, 0);
    assert_eq!((cam.x, cam.y, cam.z), (2_000_000, 0, 0));
    ctrl.update_camera(&mut cam, 500_000, 0, ONE as i32);
    assert_eq!((cam.x, cam.y, cam.z), (2_000_000, 0, 1_000_000));
}

#[test]
fn strafe_and_vertical_moves() {
    let mut ctrl = CameraController::new(1_000_000, 2);
    assert!(ctrl.process_keyboard(KeyCode::D, true));
    assert!(ctrl.process_keyboard(KeyCode::LShift, true));
    let mut cam = Camera::new(0, 0, 0, 0, 0);
    ctrl.update_camera(&mut cam, 1_000_000, ONE as i32, 0);
    assert_eq!((cam.x, cam.y, cam.z), (0, -1_000_000, 1_000_000));
    assert!(ctrl.process_keyboard(KeyCode::D, false));
    assert!(ctrl.process_keyboard(KeyCode::A, true));
    ctrl.update_camera(&mut cam, 1_000_000, ONE as i32, 0);
    assert_eq!((cam.x, cam.y, cam.z), (0, -2_000_000, 0));
}

#[test]
fn opposite_keys_cancel() {
    let mut ctrl = CameraController::new(1_000_000, 2);
    ctrl.process_keyboard(KeyCode::W, true);
    ctrl.process_keyboard(KeyCode::S, true);
    let mut cam = Camera::new(5, 6, 7, 0, 0);
    ctrl.update_camera(&mut cam, 1_000_000, ONE as i32, 0);
    assert_eq!((cam.x, cam.y, cam.z), (5, 6, 7));
}

#[test]
fn unknown_key_not_consumed() {
    let mut ctrl = CameraController::new(1, 1);
    let before = ctrl;
    assert!(!ctrl.process_keyboard(KeyCode::Other, true));
    assert_eq!(ctrl, before);
}

#[test]
fn mouse_turns_and_wraps() {
    // 1000 units of motion at 2 microradians per unit.
    let mut ctrl = CameraController::new(1, 2);
    ctrl.process_mouse(1000, 500);
    let mut cam = Camera::new(0, 0, 0, TURN - 1000, 0);
    ctrl.update_camera(&mut cam, 1_000_000, ONE as i32, 0);
    assert_eq!(cam.yaw, 1000);
    assert_eq!(cam.pitch, -1000);
    ctrl.process_mouse(-1500, 0);
    ctrl.update_camera(&mut cam, 1_000_000, ONE as i32, 0);
    assert_eq!(cam.yaw, TURN - 2000);
}

#[test]
fn camera_new_normalizes() {
    let c = Camera::new(0, 0, 0, -1, 2 * PITCH_LIMIT);
    assert_eq!(c.yaw, TURN - 1);
    assert_eq!(c.pitch, PITCH_LIMIT);
    let d = Camera::new(0, 0, 0, 3 * TURN + 7, -2 * PITCH_LIMIT);
    assert_eq!(d.yaw, 7);
    assert_eq!(d.pitch, -PITCH_LIMIT);
}

#[test]
fn position_saturates() {
    let mut ctrl = CameraController::new(u32::MAX, 1);
    ctrl.process_keyboard(KeyCode::W, true);
    let mut cam = Camera::new(i64::MAX - 5, 0, 0, 0, 0);
    ctrl.update_camera(&mut cam, u32::MAX, ONE as i32, 0);
    assert_eq!(cam.x, i64::MAX);
}
