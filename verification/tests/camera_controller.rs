use vox_core::camera_controller::{MovementKey, MovementState};

#[test]
fn keys_drive_their_flags() {
    let mut s = MovementState::new();
    assert!(s.input(MovementKey::KeyW, true));
    assert!(s.is_forward_pressed);
    assert!(s.input(MovementKey::KeyA, true));
    assert!(s.is_left_pressed);
    assert!(s.input(MovementKey::KeyS, true));
    assert!(s.is_right_pressed);
    assert!(!s.is_backward_pressed);
    assert!(s.input(MovementKey::KeyD, true));
    assert!(s.is_backward_pressed);
    assert!(s.input(MovementKey::KeyW, false));
    assert!(!s.is_forward_pressed);
}

#[test]
fn other_keys_are_ignored() {
    let mut s = MovementState::new();
    let before = s;
    assert!(!s.input(MovementKey::Other, true));
    assert_eq!(s, before);
}

#[test]
fn key_events_commute_and_repeat() {
    let mut a = MovementState::new();
    a.input(MovementKey::KeyW, true);
    a.input(MovementKey::KeyD, true);
    let mut b = MovementState::new();
    b.input(MovementKey::KeyD, true);
    b.input(MovementKey::KeyW, true);
    b.input(MovementKey::KeyW, true);
    assert_eq!(a, b);
    a.input(MovementKey::KeyD, false);
    assert!(!a.is_backward_pressed);
}

use vox_core::resources::input::{InputRes, KeyState};

#[test]
fn app_input_maps_wasd() {
    let mut res = InputRes::default();
    assert!(!res.forward.is_pressed && !res.backward.is_pressed && !res.left.is_pressed && !res.right.is_pressed);
    res.apply_key(MovementKey::KeyW, KeyState::new(true));
    assert!(res.forward.is_pressed);
    res.apply_key(MovementKey::KeyA, KeyState::new(true));
    assert!(res.left.is_pressed);
    res.apply_key(MovementKey::KeyS, KeyState::new(true));
    assert!(res.backward.is_pressed);
    res.apply_key(MovementKey::KeyD, KeyState::new(true));
    assert!(res.right.is_pressed);
    let before = res;
    res.apply_key(MovementKey::Other, KeyState::new(false));
    assert_eq!(res, before);
    res.apply_key(MovementKey::KeyW, KeyState::new(false));
    assert!(!res.forward.is_pressed);
}
