//! Items and weapons, and the factory that hands weapons out by name.

use vstd::prelude::*;
use vstd::pervasive::unreached;

verus! {

/// A weapon definition, as loaded from the external weapon table.
/// Attack resolution consumes only `damage` and `range`.
#[derive(Debug)]
pub struct Weapon {
    pub weapon_type: String,
    pub description: String,
    pub damage: u8,
    pub accuracy: u8,
    pub range: u8,
    pub sound: String,
}

impl Clone for Weapon {
    fn clone(&self) -> (res: Self)
        ensures
            res == *self,
    {
        Weapon {
            weapon_type: self.weapon_type.clone(),
            description: self.description.clone(),
            damage: self.damage,
            accuracy: self.accuracy,
            range: self.range,
            sound: self.sound.clone(),
        }
    }
}

impl Weapon {
    /// The damage this weapon deals at the given distance.
    pub fn attack(&self, distance: u8) -> (r: u8)
        ensures
            r == self.damage,
    {
        self.damage
    }
}

/// An item that can lie on a tile or sit in a skirmisher's pack.
/// The only items the game defines so far are weapons.
#[derive(Debug)]
pub enum Item {
    Weapon(Weapon),
}

/// Looks up the weapon stored under the given name, if any.
pub open spec fn weapon_lookup(entries: Seq<(String, Weapon)>, name: Seq<char>) -> Option<Weapon>
    decreases entries.len(),
{
    if entries.len() == 0 {
        None
    } else if entries.last().0@ == name {
        Some(entries.last().1)
    } else {
        weapon_lookup(entries.drop_last(), name)
    }
}

/// The table of weapon definitions, keyed by name.
pub struct ItemFactory {
    weapons: Vec<(String, Weapon)>,
}

impl ItemFactory {
    pub closed spec fn entries(self) -> Seq<(String, Weapon)> {
        self.weapons@
    }

    /// Keys are unique.
    pub open spec fn wf(self) -> bool {
        forall|i: int, j: int|
            0 <= i < j < self.entries().len() ==> self.entries()[i].0@ != self.entries()[j].0@
    }

    pub open spec fn has_weapon(self, name: Seq<char>) -> bool {
        weapon_lookup(self.entries(), name) is Some
    }

    /// Builds the factory from a list of name/weapon entries with distinct names,
    /// as produced by parsing the external weapon table.
    pub fn from_entries(entries: Vec<(String, Weapon)>) -> (r: Self)
        requires
            forall|i: int, j: int|
                0 <= i < j < entries@.len() ==> entries@[i].0@ != entries@[j].0@,
        ensures
            r.wf(),
            r.entries() == entries@,
    {
        Self { weapons: entries }
    }

    /// Hands out a copy of the weapon stored under `name`.
    /// The name must be present in the table.
    pub fn get_weapon(&self, name: &'static str) -> (r: Weapon)
        requires
            self.has_weapon(name@),
        ensures
            Some(r) == weapon_lookup(self.entries(), name@),
    {
        let key: String = name.to_owned();
        let ghost entries = self.entries();
        let n = self.weapons.len();
        proof {
            assert(entries.take(n as int) =~= entries);
        }
        let mut i = n;
        while i > 0
            invariant
                i <= n,
                n == entries.len(),
                entries == self.entries(),
                weapon_lookup(entries, key@) is Some,
                key@ == name@,
                weapon_lookup(entries.take(i as int), key@) == weapon_lookup(entries, key@),
            decreases i,
        {
            i = i - 1;
            if self.weapons[i].0 == key {
                assert(entries.take(i + 1).last() == entries[i as int]);
                return self.weapons[i].1.clone();
            }
            assert(entries.take(i + 1).drop_last() =~= entries.take(i as int));
        }
        assert(entries.take(0) =~= Seq::<(String, Weapon)>::empty());
        assert(false);
        unreached()
    }
}

} // verus!
