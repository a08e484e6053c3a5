//! The keys the loop listens to and the record of which of them are held.

use vstd::prelude::*;

verus! {

/// A key as the loop sees it: the four directions, escape, or anything else.
#[derive(Clone, Copy, Debug, PartialEq, Eq, Structural)]
pub enum Key {
    Up,
    Down,
    Left,
    Right,
    Escape,
    Other,
}

/// Whether a key event reports the key going down or coming up.
#[derive(Clone, Copy, Debug, PartialEq, Eq, Structural)]
pub enum KeyState {
    Pressed,
    Released,
}

/// Which of the four directional keys are held right now.
#[derive(Clone, Copy, Debug, PartialEq, Eq, Structural)]
pub struct InputState {
    pub forward: bool,
    pub back: bool,
    pub left: bool,
    pub right: bool,
}

impl InputState {
    /// The record after `key` has changed to `state`: a directional key sets
    /// its own flag and leaves the others alone, any other key changes nothing.
    pub open spec fn after_key(self, key: Key, state: KeyState) -> InputState {
        let held = state is Pressed;
        match key {
            Key::Up => InputState { forward: held, ..self },
            Key::Down => InputState { back: held, ..self },
            Key::Left => InputState { left: held, ..self },
            Key::Right => InputState { right: held, ..self },
            Key::Escape | Key::Other => self,
        }
    }

    /// The net direction of turning: `1` while only right is held, `-1` while
    /// only left is held, `0` while neither or both are.
    pub open spec fn turn(self) -> int {
        (if self.right { 1int } else { 0int }) - (if self.left { 1int } else { 0int })
    }

    /// No key held.
    pub fn new() -> (input: InputState)
        ensures
            input == (InputState { forward: false, back: false, left: false, right: false }),
    {
        InputState { forward: false, back: false, left: false, right: false }
    }

    /// Records that `key` went down or came up.
    pub fn apply_key(&mut self, key: Key, state: KeyState)
        ensures
            *final(self) == old(self).after_key(key, state),
    {
        let held = match state {
            KeyState::Pressed => true,
            KeyState::Released => false,
        };
        match key {
            Key::Up => self.forward = held,
            Key::Down => self.back = held,
            Key::Left => self.left = held,
            Key::Right => self.right = held,
            Key::Escape => {},
            Key::Other => {},
        }
    }
}

} // verus!
