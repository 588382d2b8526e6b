//! Key-driven movement state, one per entity.

use vstd::prelude::*;
use crate::input::{Input, InputState};
use crate::point::MapPoint;

verus! {

/// What the entity is doing right now, as driven by held keys, plus
/// whether it stands on solid ground.
#[derive(Copy, Clone, PartialEq, Eq, Structural, Debug)]
pub struct StateComp {
    pub move_action: InputState,
    pub attack_action: Option<MapPoint>,
    pub on_ground: bool,
}

impl StateComp {
    pub fn new() -> (r: Self)
        ensures
            r.move_action == (InputState {
                up: Input { handled: true, state: false },
                left: Input { handled: true, state: false },
                right: Input { handled: true, state: false },
                down: Input { handled: true, state: false },
            }),
            r.attack_action is None,
            !r.on_ground,
    {
        Self { move_action: InputState::new(), attack_action: None, on_ground: false }
    }

    pub fn is_moving_vertical(&self) -> (r: bool)
        ensures
            r == (self.move_action.up.state || self.move_action.down.state),
    {
        self.move_action.up.state || self.move_action.down.state
    }

    pub fn is_moving_horizontal(&self) -> (r: bool)
        ensures
            r == (self.move_action.left.state || self.move_action.right.state),
    {
        self.move_action.left.state || self.move_action.right.state
    }

    pub fn is_moving(&self) -> (r: bool)
        ensures
            r == (self.move_action.up.state || self.move_action.down.state
                || self.move_action.left.state || self.move_action.right.state),
    {
        self.move_action.is_some_direction()
    }

    pub fn is_on_ground(&self) -> (r: bool)
        ensures
            r == self.on_ground,
    {
        self.on_ground
    }
}

} // verus!
