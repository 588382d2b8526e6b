//! The sounds an entity plays, keyed by what it is doing.

use vstd::prelude::*;

verus! {

/// The occasions a sound can be attached to.
#[derive(Debug, Copy, Clone, PartialEq, Eq, Structural, Hash)]
pub enum SoundType {
    Move,
}

/// An entity's sound table: for each occasion, the asset name to play
/// and whether it repeats.
pub struct SoundComp {
    pub sound_map: Vec<(SoundType, (&'static str, bool))>,
}

impl SoundComp {
    pub fn new(sounds: Vec<(SoundType, (&'static str, bool))>) -> (r: SoundComp)
        ensures
            r.sound_map@ == sounds@,
    {
        SoundComp { sound_map: sounds }
    }
}

} // verus!
