//! Committed actions: the movement and attack state an entity carries.

use vstd::prelude::*;
use crate::point::MapPoint;

verus! {

/// Direction flags raised by held movement keys.
#[derive(Eq, PartialEq, Structural, Copy, Clone, Debug)]
pub struct Move {
    pub up: bool,
    pub down: bool,
    pub left: bool,
    pub right: bool,
    pub dirty: bool,
}

impl Move {
    pub fn new() -> (r: Self)
        ensures
            r == (Move { up: false, down: false, left: false, right: false, dirty: false }),
    {
        Self { up: false, down: false, left: false, right: false, dirty: false }
    }

    pub fn is_some_direction(&self) -> (r: bool)
        ensures
            r == (self.up || self.down || self.left || self.right),
    {
        self.up || self.down || self.left || self.right
    }
}

/// Key-driven action state, one per entity.
pub struct ActComp {
    pub move_action: Move,
    pub attack_action: Option<MapPoint>,
}

impl ActComp {
    pub fn new() -> (r: Self)
        ensures
            r.move_action == (Move { up: false, down: false, left: false, right: false, dirty: false }),
            r.attack_action is None,
    {
        Self { move_action: Move::new(), attack_action: None }
    }
}

/// A committed path: the waypoints still to be walked, the next first.
pub struct MoveToPoint {
    pub point_stack: Vec<MapPoint>,
}

impl MoveToPoint {
    pub fn new(path: Vec<MapPoint>) -> (r: Self)
        ensures
            r.point_stack@ == path@,
    {
        Self { point_stack: path }
    }

    /// The waypoint movement is currently heading for, if any is left.
    pub fn next_point(&self) -> (r: Option<MapPoint>)
        ensures
            r == if self.point_stack@.len() > 0 {
                Some(self.point_stack@[0])
            } else {
                None::<MapPoint>
            },
    {
        if self.point_stack.len() > 0 {
            Some(self.point_stack[0])
        } else {
            None
        }
    }
}

/// The action an entity is committed to, consumed by the resolver tick
/// by tick.
pub enum Action {
    Idle,
    MoveTo(MoveToPoint),
    AttackAt(MapPoint),
}

impl Action {
    /// The waypoint in-progress movement is heading for, if any.
    pub fn current_target(&self) -> (r: Option<MapPoint>)
        ensures
            r == match *self {
                Action::MoveTo(ref mtp) => if mtp.point_stack@.len() > 0 {
                    Some(mtp.point_stack@[0])
                } else {
                    None::<MapPoint>
                },
                _ => None::<MapPoint>,
            },
    {
        match self {
            Action::MoveTo(mtp) => mtp.next_point(),
            _ => None,
        }
    }

    /// Notes that the current waypoint has been reached: it is consumed,
    /// and once no waypoint is left the entity falls back to idle.
    pub fn waypoint_reached(&mut self)
        requires
            *old(self) is MoveTo,
        ensures
            ({
                let stack = old(self)->MoveTo_0.point_stack@;
                if stack.len() <= 1 {
                    *final(self) is Idle
                } else {
                    &&& *final(self) is MoveTo
                    &&& final(self)->MoveTo_0.point_stack@ == stack.drop_first()
                }
            }),
    {
        match self {
            Action::MoveTo(mtp) => {
                if mtp.point_stack.len() <= 1 {
                    *self = Action::Idle;
                } else {
                    mtp.point_stack.remove(0);
                    proof {
                        assert(mtp.point_stack@ =~= old(self)->MoveTo_0.point_stack@.drop_first());
                    }
                }
            },
            _ => {},
        }
    }
}

} // verus!
