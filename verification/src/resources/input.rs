use vstd::prelude::*;

use crate::camera_controller::MovementKey;

verus! {

/// Whether a key is held down.
#[derive(Debug, Clone, Copy, PartialEq, Eq, Structural)]
pub struct KeyState {
    pub is_pressed: bool,
}

/// The movement keys as the game loop reads them.
#[derive(Debug, Clone, Copy, PartialEq, Eq, Structural)]
pub struct InputRes {
    pub forward: KeyState,
    pub backward: KeyState,
    pub left: KeyState,
    pub right: KeyState,
}

/// The input after `key` goes to `state`: W drives `forward`, A `left`,
/// S `backward` and D `right`; any other key changes nothing.
pub open spec fn after_input(res: InputRes, key: MovementKey, state: KeyState) -> InputRes {
    match key {
        MovementKey::KeyW => InputRes { forward: state, ..res },
        MovementKey::KeyA => InputRes { left: state, ..res },
        MovementKey::KeyS => InputRes { backward: state, ..res },
        MovementKey::KeyD => InputRes { right: state, ..res },
        MovementKey::Other => res,
    }
}

impl KeyState {
    pub fn new(is_pressed: bool) -> (r: Self)
        ensures
            r.is_pressed == is_pressed,
    {
        KeyState { is_pressed }
    }
}

impl InputRes {
    /// Records the new state of `key`.
    pub fn apply_key(&mut self, key: MovementKey, key_state: KeyState)
        ensures
            *final(self) == after_input(*old(self), key, key_state),
    {
        match key {
            MovementKey::KeyW => self.forward = key_state,
            MovementKey::KeyA => self.left = key_state,
            MovementKey::KeyS => self.backward = key_state,
            MovementKey::KeyD => self.right = key_state,
            MovementKey::Other => {},
        }
    }
}

impl Default for InputRes {
    fn default() -> (r: Self)
        ensures
            !r.forward.is_pressed && !r.backward.is_pressed && !r.left.is_pressed && !r.right.is_pressed,
    {
        let released = KeyState { is_pressed: false };
        InputRes { forward: released, backward: released, left: released, right: released }
    }
}

/// A key's latest state is what counts: applying a key twice keeps only the
/// second state, and events for two different keys commute.
pub proof fn lemma_inputs_latest_wins(
    res: InputRes,
    a: MovementKey,
    sa: KeyState,
    sa2: KeyState,
    b: MovementKey,
    sb: KeyState,
)
    ensures
        after_input(after_input(res, a, sa), a, sa2) == after_input(res, a, sa2),
        a != b ==> after_input(after_input(res, a, sa), b, sb) == after_input(after_input(res, b, sb), a, sa),
{
}

/// Each movement key drives one field and only that one: W drives
/// `forward`, A `left`, S `backward` and D `right`, and that field takes the
/// key's new state, pressed or released. Any other key changes nothing.
pub proof fn lemma_key_drives_its_field(res: InputRes, state: KeyState)
    ensures
        after_input(res, MovementKey::KeyW, state).forward == state,
        after_input(res, MovementKey::KeyW, state).backward == res.backward,
        after_input(res, MovementKey::KeyW, state).left == res.left,
        after_input(res, MovementKey::KeyW, state).right == res.right,
        after_input(res, MovementKey::KeyA, state).left == state,
        after_input(res, MovementKey::KeyA, state).forward == res.forward,
        after_input(res, MovementKey::KeyA, state).backward == res.backward,
        after_input(res, MovementKey::KeyA, state).right == res.right,
        after_input(res, MovementKey::KeyS, state).backward == state,
        after_input(res, MovementKey::KeyS, state).forward == res.forward,
        after_input(res, MovementKey::KeyS, state).left == res.left,
        after_input(res, MovementKey::KeyS, state).right == res.right,
        after_input(res, MovementKey::KeyD, state).right == state,
        after_input(res, MovementKey::KeyD, state).forward == res.forward,
        after_input(res, MovementKey::KeyD, state).backward == res.backward,
        after_input(res, MovementKey::KeyD, state).left == res.left,
        after_input(res, MovementKey::Other, state) == res,
{
}

} // verus!
