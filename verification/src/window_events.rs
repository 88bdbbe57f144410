//! What the application does with each window event: the decisions of its
//! event handler, apart from the window system that delivers the events and
//! carries out the actions.

use vstd::prelude::*;

use crate::camera_controller::MovementKey;
use crate::resources::input::{after_input, InputRes, KeyState};

verus! {

/// A physical key as the event handler tells keys apart.
#[derive(Debug, Clone, Copy, PartialEq, Eq, Structural)]
pub enum KeyInput {
    Escape,
    Movement(MovementKey),
}

/// A window event, reduced to what the handler reads of it.
#[derive(Debug, Clone, Copy, PartialEq, Eq, Structural)]
pub enum WindowInput {
    CloseRequested,
    Resized { width: u32, height: u32 },
    RedrawRequested,
    Keyboard { key: KeyInput, pressed: bool },
    Other,
}

/// What the window system is asked to do next.
#[derive(Debug, Clone, Copy, PartialEq, Eq, Structural)]
pub enum WindowAction {
    Exit,
    Resize { width: u32, height: u32 },
    Redraw,
    Nothing,
}

/// The action for `event`: a close request or a press of Escape exits; a
/// resize to a size with no zero side reconfigures the surface, any other
/// resize is ignored; a redraw request draws a frame; everything else,
/// movement keys included, asks nothing of the window system.
pub open spec fn action_for(event: WindowInput) -> WindowAction {
    match event {
        WindowInput::CloseRequested => WindowAction::Exit,
        WindowInput::Keyboard { key: KeyInput::Escape, pressed: true } => WindowAction::Exit,
        WindowInput::Resized { width, height } => if width > 0 && height > 0 {
            WindowAction::Resize { width, height }
        } else {
            WindowAction::Nothing
        },
        WindowInput::RedrawRequested => WindowAction::Redraw,
        _ => WindowAction::Nothing,
    }
}

/// The movement input after `event`: a movement key's new state is
/// recorded; no other event changes it.
pub open spec fn input_after(input: InputRes, event: WindowInput) -> InputRes {
    match event {
        WindowInput::Keyboard { key: KeyInput::Movement(key), pressed } => after_input(
            input,
            key,
            KeyState { is_pressed: pressed },
        ),
        _ => input,
    }
}

/// Handles one window event: updates the movement input and returns what
/// the window system must do.
pub fn handle_window_event(input: &mut InputRes, event: WindowInput) -> (r: WindowAction)
    ensures
        r == action_for(event),
        *final(input) == input_after(*old(input), event),
{
    match event {
        WindowInput::CloseRequested => WindowAction::Exit,
        WindowInput::Resized { width, height } => {
            if width > 0 && height > 0 {
                WindowAction::Resize { width, height }
            } else {
                WindowAction::Nothing
            }
        },
        WindowInput::RedrawRequested => WindowAction::Redraw,
        WindowInput::Keyboard { key, pressed } => match key {
            KeyInput::Escape => {
                if pressed {
                    WindowAction::Exit
                } else {
                    WindowAction::Nothing
                }
            },
            KeyInput::Movement(movement) => {
                input.apply_key(movement, KeyState::new(pressed));
                WindowAction::Nothing
            },
        },
        WindowInput::Other => WindowAction::Nothing,
    }
}

/// Only a close request or a press of Escape ends the application, and no
/// event that ends it touches the movement input.
pub proof fn lemma_exit_only_on_close_or_escape(input: InputRes, event: WindowInput)
    ensures
        action_for(event) == WindowAction::Exit <==> (event == WindowInput::CloseRequested || event
            == (WindowInput::Keyboard { key: KeyInput::Escape, pressed: true })),
        action_for(event) == WindowAction::Exit ==> input_after(input, event) == input,
{
}

/// A resize that would leave a side at zero is ignored, and a resize never
/// touches the movement input.
pub proof fn lemma_zero_size_resize_ignored(input: InputRes, width: u32, height: u32)
    ensures
        (width == 0 || height == 0) ==> action_for(WindowInput::Resized { width, height })
            == WindowAction::Nothing,
        input_after(input, WindowInput::Resized { width, height }) == input,
{
}

/// A movement-key event records the key exactly as `InputRes::apply_key`
/// does for that same key and state (so A drives `left`, D drives `right`),
/// and every other event leaves the movement input as it was.
pub proof fn lemma_movement_event_is_apply_key(input: InputRes, event: WindowInput)
    ensures
        event matches WindowInput::Keyboard { key: KeyInput::Movement(k), pressed } ==> input_after(input, event)
            == after_input(input, k, KeyState { is_pressed: pressed }),
        !(event is Keyboard && event->key is Movement) ==> input_after(input, event) == input,
        event matches WindowInput::Keyboard { key: KeyInput::Movement(k), pressed } ==> action_for(event)
            == WindowAction::Nothing,
{
}

} // verus!
