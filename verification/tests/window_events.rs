use vox_core::camera_controller::MovementKey;
use vox_core::resources::input::InputRes;
use vox_core::window_events::{handle_window_event, KeyInput, WindowAction, WindowInput};

#[test]
fn close_request_exits() {
    let mut input = InputRes::default();
    assert_eq!(handle_window_event(&mut input, WindowInput::CloseRequested), WindowAction::Exit);
    assert_eq!(input, InputRes::default());
}

#[test]
fn escape_press_exits_and_release_does_not() {
    let mut input = InputRes::default();
    let press = WindowInput::Keyboard { key: KeyInput::Escape, pressed: true };
    let release = WindowInput::Keyboard { key: KeyInput::Escape, pressed: false };
    assert_eq!(handle_window_event(&mut input, press), WindowAction::Exit);
    assert_eq!(handle_window_event(&mut input, release), WindowAction::Nothing);
    assert_eq!(input, InputRes::default());
}

#[test]
fn resize_needs_both_sides() {
    let mut input = InputRes::default();
    assert_eq!(
        handle_window_event(&mut input, WindowInput::Resized { width: 800, height: 600 }),
        WindowAction::Resize { width: 800, height: 600 }
    );
    assert_eq!(
        handle_window_event(&mut input, WindowInput::Resized { width: 0, height: 600 }),
        WindowAction::Nothing
    );
    assert_eq!(
        handle_window_event(&mut input, WindowInput::Resized { width: 800, height: 0 }),
        WindowAction::Nothing
    );
}

#[test]
fn redraw_request_redraws() {
    let mut input = InputRes::default();
    assert_eq!(handle_window_event(&mut input, WindowInput::RedrawRequested), WindowAction::Redraw);
    assert_eq!(handle_window_event(&mut input, WindowInput::Other), WindowAction::Nothing);
}

#[test]
fn movement_keys_update_input() {
    let mut input = InputRes::default();
    let w = WindowInput::Keyboard { key: KeyInput::Movement(MovementKey::KeyW), pressed: true };
    let s = WindowInput::Keyboard { key: KeyInput::Movement(MovementKey::KeyS), pressed: true };
    let other = WindowInput::Keyboard { key: KeyInput::Movement(MovementKey::Other), pressed: true };
    assert_eq!(handle_window_event(&mut input, w), WindowAction::Nothing);
    assert_eq!(handle_window_event(&mut input, s), WindowAction::Nothing);
    assert_eq!(handle_window_event(&mut input, other), WindowAction::Nothing);
    assert!(input.forward.is_pressed);
    assert!(input.backward.is_pressed);
    assert!(!input.left.is_pressed);
    assert!(!input.right.is_pressed);

    let w_up = WindowInput::Keyboard { key: KeyInput::Movement(MovementKey::KeyW), pressed: false };
    handle_window_event(&mut input, w_up);
    assert!(!input.forward.is_pressed);
    assert!(input.backward.is_pressed);
}
