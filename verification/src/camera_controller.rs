use vstd::prelude::*;

verus! {

/// A key as the camera controller sees it.
#[derive(Debug, Clone, Copy, PartialEq, Eq, Structural)]
pub enum MovementKey {
    KeyW,
    KeyA,
    KeyS,
    KeyD,
    Other,
}

/// Which of the controller's movement flags are set.
#[derive(Debug, Clone, Copy, PartialEq, Eq, Structural)]
pub struct MovementState {
    pub is_forward_pressed: bool,
    pub is_backward_pressed: bool,
    pub is_right_pressed: bool,
    pub is_left_pressed: bool,
}

/// The state after `key` goes to `is_pressed`: W drives the forward flag,
/// A the left flag, S the right flag and D the backward flag; any other
/// key changes nothing.
pub open spec fn after_key(s: MovementState, key: MovementKey, is_pressed: bool) -> MovementState {
    match key {
        MovementKey::KeyW => MovementState { is_forward_pressed: is_pressed, ..s },
        MovementKey::KeyA => MovementState { is_left_pressed: is_pressed, ..s },
        MovementKey::KeyS => MovementState { is_right_pressed: is_pressed, ..s },
        MovementKey::KeyD => MovementState { is_backward_pressed: is_pressed, ..s },
        MovementKey::Other => s,
    }
}

impl MovementState {
    /// No flag set.
    pub fn new() -> (r: Self)
        ensures
            !r.is_forward_pressed && !r.is_backward_pressed && !r.is_right_pressed && !r.is_left_pressed,
    {
        MovementState {
            is_forward_pressed: false,
            is_backward_pressed: false,
            is_right_pressed: false,
            is_left_pressed: false,
        }
    }

    /// Records that `key` is now pressed or released; true when the key
    /// is one of W, A, S, D.
    pub fn input(&mut self, key: MovementKey, is_pressed: bool) -> (r: bool)
        ensures
            *final(self) == after_key(*old(self), key, is_pressed),
            r == (key != MovementKey::Other),
    {
        match key {
            MovementKey::KeyW => {
                self.is_forward_pressed = is_pressed;
                true
            },
            MovementKey::KeyA => {
                self.is_left_pressed = is_pressed;
                true
            },
            MovementKey::KeyS => {
                self.is_right_pressed = is_pressed;
                true
            },
            MovementKey::KeyD => {
                self.is_backward_pressed = is_pressed;
                true
            },
            MovementKey::Other => false,
        }
    }
}

/// Repeating a key event changes nothing more, and events for two
/// different keys can be applied in either order.
pub proof fn lemma_key_events_commute(
    s: MovementState,
    a: MovementKey,
    pa: bool,
    b: MovementKey,
    pb: bool,
)
    ensures
        after_key(after_key(s, a, pa), a, pa) == after_key(s, a, pa),
        a != b ==> after_key(after_key(s, a, pa), b, pb) == after_key(after_key(s, b, pb), a, pa),
{
}

/// Pressing then releasing a key clears its flag, whatever it was.
pub proof fn lemma_press_release(s: MovementState, key: MovementKey)
    ensures
        after_key(after_key(s, key, true), key, false) == after_key(s, key, false),
{
}

/// Each movement key drives one flag and only that one: W the forward
/// flag, A the left flag, S the right flag and D the backward flag, and
/// that flag takes the key's new state, so releasing a key clears it. Any
/// other key changes nothing.
pub proof fn lemma_key_drives_its_flag(s: MovementState, is_pressed: bool)
    ensures
        after_key(s, MovementKey::KeyW, is_pressed).is_forward_pressed == is_pressed,
        after_key(s, MovementKey::KeyW, is_pressed).is_backward_pressed == s.is_backward_pressed,
        after_key(s, MovementKey::KeyW, is_pressed).is_left_pressed == s.is_left_pressed,
        after_key(s, MovementKey::KeyW, is_pressed).is_right_pressed == s.is_right_pressed,
        after_key(s, MovementKey::KeyA, is_pressed).is_left_pressed == is_pressed,
        after_key(s, MovementKey::KeyA, is_pressed).is_forward_pressed == s.is_forward_pressed,
        after_key(s, MovementKey::KeyA, is_pressed).is_backward_pressed == s.is_backward_pressed,
        after_key(s, MovementKey::KeyA, is_pressed).is_right_pressed == s.is_right_pressed,
        after_key(s, MovementKey::KeyS, is_pressed).is_right_pressed == is_pressed,
        after_key(s, MovementKey::KeyS, is_pressed).is_forward_pressed == s.is_forward_pressed,
        after_key(s, MovementKey::KeyS, is_pressed).is_backward_pressed == s.is_backward_pressed,
        after_key(s, MovementKey::KeyS, is_pressed).is_left_pressed == s.is_left_pressed,
        after_key(s, MovementKey::KeyD, is_pressed).is_backward_pressed == is_pressed,
        after_key(s, MovementKey::KeyD, is_pressed).is_forward_pressed == s.is_forward_pressed,
        after_key(s, MovementKey::KeyD, is_pressed).is_left_pressed == s.is_left_pressed,
        after_key(s, MovementKey::KeyD, is_pressed).is_right_pressed == s.is_right_pressed,
        after_key(s, MovementKey::Other, is_pressed) == s,
{
}

} // verus!
