//! One map cell: walkability, the entity standing on it, and a dropped item.

use vstd::prelude::*;
use crate::item::Item;

verus! {

/// Identifies an entity of the surrounding world; tiles refer to their
/// occupant by this id, never by ownership.
pub type EntityId = u64;

/// Whether a cell can be walked through and seen through.
#[derive(PartialEq, Eq, Structural, Hash, Copy, Clone, Debug)]
pub enum TileType {
    Wall,
    Ground,
}

/// One cell of the skirmish map.
#[derive(Debug)]
pub struct Tile {
    pub occupant: Option<EntityId>,
    pub ground_occupant: Option<Item>,
    pub tile_type: TileType,
    pub glyph: char,
}

impl Tile {
    /// A fresh, unoccupied cell of the given type, with its drawing glyph.
    pub fn new(tile_type: TileType) -> (r: Self)
        ensures
            r.occupant is None,
            r.ground_occupant is None,
            r.tile_type == tile_type,
            r.glyph == if tile_type is Wall { '#' } else { ' ' },
    {
        match tile_type {
            TileType::Wall => Self {
                occupant: None,
                ground_occupant: None,
                tile_type,
                glyph: '#',
            },
            TileType::Ground => Self {
                occupant: None,
                ground_occupant: None,
                tile_type,
                glyph: ' ',
            },
        }
    }

    pub fn has_occupant(&self) -> (r: bool)
        ensures
            r == (self.occupant is Some),
    {
        self.occupant.is_some()
    }
}

} // verus!
