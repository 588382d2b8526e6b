//! The simulation core of a tile-based tactical skirmish game: the tile
//! map with its occupancy, pathfinding and line of sight over it, the
//! per-entity turn machine with its movement budget, and the resolver
//! that turns player commands into committed actions and plays them out.
//!
//! Drawing, audio, asset loading and window plumbing live outside this
//! crate; they consume its state through the components defined here.

pub mod act;
pub mod equipment;
pub mod input;
pub mod item;
pub mod map;
pub mod physics;
pub mod point;
pub mod render;
pub mod resolver;
pub mod resources;
pub mod search;
pub mod skirmer;
pub mod sound;
pub mod state;
pub mod stats;
pub mod tile;
pub mod turn;
