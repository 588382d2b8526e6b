//! Skirmisher archetypes and the gear they start with.

use vstd::prelude::*;
use crate::item::{Item, ItemFactory, Weapon, weapon_lookup};

verus! {

/// The playable skirmisher archetypes.
#[derive(Copy, Clone, PartialEq, Eq, Structural, Debug)]
pub enum SkirmerType {
    Fighter,
    Sniper,
}

/// Builds skirmishers of a chosen archetype.
pub struct SkirmerFactory;

impl SkirmerFactory {
    pub fn new() -> (r: Self)
        ensures
            r == SkirmerFactory,
    {
        Self {}
    }

    /// The starting gear of an archetype: so far, every archetype gets
    /// the rifle and no extra items. The weapon table must hold it.
    pub fn get_skirmer_items(&self, skirmer: &SkirmerType, factory: &ItemFactory) -> (r: (
        Weapon,
        Vec<Item>,
    ))
        requires
            factory.has_weapon(".22 Rifle"@),
        ensures
            Some(r.0) == weapon_lookup(factory.entries(), ".22 Rifle"@),
            r.1@.len() == 0,
    {
        match skirmer {
            SkirmerType::Fighter => {
                let weapon = factory.get_weapon(".22 Rifle");
                (weapon, Vec::new())
            },
            SkirmerType::Sniper => {
                let weapon = factory.get_weapon(".22 Rifle");
                (weapon, Vec::new())
            },
        }
    }
}

} // verus!
