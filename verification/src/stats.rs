//! Per-entity combat statistics.

use vstd::prelude::*;

verus! {

/// An entity's combat statistics. `move_per_turn` is the movement budget
/// one turn grants.
#[derive(Copy, Clone, PartialEq, Eq, Structural, Debug)]
pub struct StatsComp {
    pub health: u8,
    pub max_health: u8,
    pub strength: u8,
    pub aim: u8,
    pub move_per_turn: u8,
}

impl StatsComp {
    /// The stats a freshly spawned skirmisher starts with.
    pub fn default() -> (r: Self)
        ensures
            r == (StatsComp { health: 100, max_health: 100, strength: 5, aim: 5, move_per_turn: 7 }),
    {
        Self { health: 100, max_health: 100, strength: 5, aim: 5, move_per_turn: 7 }
    }

    /// Deals `amount` damage: health drops by that much, clamped at zero.
    /// Nothing else changes.
    pub fn apply_damage(&mut self, amount: u8)
        ensures
            final(self).health == if old(self).health < amount {
                0
            } else {
                (old(self).health - amount) as u8
            },
            *final(self) == (StatsComp { health: final(self).health, ..*old(self) }),
    {
        if self.health < amount {
            self.health = 0;
        } else {
            self.health = self.health - amount;
        }
    }

    /// Whether the end-of-tick maintenance pass removes this entity.
    pub fn is_dead(&self) -> (r: bool)
        ensures
            r == (self.health == 0),
    {
        self.health == 0
    }
}

} // verus!
