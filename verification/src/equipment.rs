//! What a skirmisher carries.

use vstd::prelude::*;
use crate::item::{Item, Weapon};

verus! {

/// The weapon a skirmisher wields and the items it carries.
pub struct EquipmentComp {
    pub weapon: Weapon,
    pub items: Vec<Item>,
}

impl EquipmentComp {
    pub fn new(weapon: Weapon, items: Vec<Item>) -> (r: Self)
        ensures
            r.weapon == weapon,
            r.items@ == items@,
    {
        Self { weapon, items }
    }
}

} // verus!
