//! Physical behaviour classes of entities.

use vstd::prelude::*;

verus! {

/// Whether an entity is pushed around by the physics pass or pinned in
/// place.
#[derive(Clone, Copy, Debug, Eq, PartialEq, Structural)]
pub enum PhysicsType {
    Moveable,
    Constant,
}

} // verus!
