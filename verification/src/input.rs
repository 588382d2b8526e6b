//! Raw input state as the event layer hands it over.

use vstd::prelude::*;
use crate::tile::EntityId;

verus! {

/// One key's state, and whether the change has been consumed yet.
#[derive(Eq, PartialEq, Structural, Copy, Clone, Debug)]
pub struct Input {
    pub handled: bool,
    pub state: bool,
}

impl Input {
    pub fn new() -> (r: Self)
        ensures
            r == (Input { handled: true, state: false }),
    {
        Self { handled: true, state: false }
    }

    /// Records a key going down or up; the change is left for the
    /// systems to handle.
    pub fn set(&mut self, state: bool)
        ensures
            *final(self) == (Input { handled: false, state }),
    {
        self.handled = false;
        self.state = state;
    }
}

/// The four movement keys.
#[derive(Copy, Clone, PartialEq, Eq, Structural, Debug)]
pub struct InputState {
    pub up: Input,
    pub left: Input,
    pub right: Input,
    pub down: Input,
}

impl InputState {
    pub fn new() -> (r: Self)
        ensures
            r.up == (Input { handled: true, state: false }),
            r.left == (Input { handled: true, state: false }),
            r.right == (Input { handled: true, state: false }),
            r.down == (Input { handled: true, state: false }),
    {
        Self { up: Input::new(), left: Input::new(), right: Input::new(), down: Input::new() }
    }

    pub fn is_any_unhandled(&self) -> (r: bool)
        ensures
            r == (!self.up.handled || !self.down.handled || !self.left.handled
                || !self.right.handled),
    {
        !self.up.handled || !self.down.handled || !self.left.handled || !self.right.handled
    }

    pub fn is_some_direction(&self) -> (r: bool)
        ensures
            r == (self.up.state || self.down.state || self.left.state || self.right.state),
    {
        self.up.state || self.down.state || self.left.state || self.right.state
    }
}

/// The input state of the player, and the entity the player steers.
#[derive(Copy, Clone, PartialEq, Eq, Structural, Debug)]
pub struct PlayerInputState {
    pub input: InputState,
    pub ent: EntityId,
}

impl PlayerInputState {
    pub fn new(ent: EntityId) -> (r: Self)
        ensures
            r.ent == ent,
            r.input == (InputState {
                up: Input { handled: true, state: false },
                left: Input { handled: true, state: false },
                right: Input { handled: true, state: false },
                down: Input { handled: true, state: false },
            }),
    {
        Self { input: InputState::new(), ent }
    }
}

} // verus!
