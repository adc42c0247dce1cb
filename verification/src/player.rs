//! The player's per-entity record: its movement state, the input mode
//! it listens to, and its speed in fixed-point world sub-units per
//! second.

use vstd::prelude::*;

verus! {

use crate::math::DEFAULT_SPEED;

/// Whether the entity moved during the last frame update.
#[derive(PartialEq, Eq, Structural, Clone, Copy, Debug)]
pub enum PlayerState {
    Standing,
    Moving,
}

/// Which input source steers the entity. Exactly one mode is read per
/// frame; the mode itself only changes through an external command that
/// calls [`InputState::next`].
#[derive(PartialEq, Eq, Structural, Clone, Copy, Debug)]
pub enum InputState {
    Mouse,
    Keyboard,
    Controller,
}

/// The cycle the input-mode command steps through:
/// Mouse, then Keyboard, then Controller, then Mouse again.
pub open spec fn next_input_state(s: InputState) -> InputState {
    match s {
        InputState::Mouse => InputState::Keyboard,
        InputState::Keyboard => InputState::Controller,
        InputState::Controller => InputState::Mouse,
    }
}

impl InputState {
    /// For cycling through the `InputState` values.
    pub fn next(&self) -> (r: Self)
        ensures
            r == next_input_state(*self),
    {
        match *self {
            InputState::Mouse => InputState::Keyboard,
            InputState::Keyboard => InputState::Controller,
            InputState::Controller => InputState::Mouse,
        }
    }
}

/// Per-entity movement record. `speed` is in world sub-units per
/// second (see [`crate::math::SCALE`]).
#[derive(Clone, Debug)]
pub struct PlayerComponent {
    pub speed: i64,
    pub state: PlayerState,
    pub input_state: InputState,
}

impl Default for PlayerComponent {
    /// A fresh player stands still, listens to the mouse, and moves
    /// 100 world units per second once steered.
    fn default() -> (r: PlayerComponent)
        ensures
            r.speed == DEFAULT_SPEED,
            r.state == PlayerState::Standing,
            r.input_state == InputState::Mouse,
    {
        PlayerComponent {
            speed: DEFAULT_SPEED,
            state: PlayerState::Standing,
            input_state: InputState::Mouse,
        }
    }
}

impl PlayerComponent {
    /// Check if player is moving.
    pub fn is_moving(&self) -> (r: bool)
        ensures
            r == (self.state != PlayerState::Standing),
    {
        self.state != PlayerState::Standing
    }

    /// Check if player is using mouse input.
    pub fn uses_mouse(&self) -> (r: bool)
        ensures
            r == (self.input_state == InputState::Mouse),
    {
        self.input_state == InputState::Mouse
    }

    /// Check if player is using keyboard input.
    pub fn uses_keyboard(&self) -> (r: bool)
        ensures
            r == (self.input_state == InputState::Keyboard),
    {
        self.input_state == InputState::Keyboard
    }
}

} // verus!
