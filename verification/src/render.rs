//! Sprite and animation state handed to the drawing collaborator.

use vstd::prelude::*;

verus! {

/// How an entity is drawn: a text glyph or a named image.
#[derive(Copy, Clone, Debug)]
pub enum RenderType {
    Glyph { id: char },
    Image { id: &'static str },
}

/// Milliseconds each animation frame is shown for.
pub const FRAME_DELAY_MILLIS: u64 = 250;

/// An entity's animation state. Times are in milliseconds of animation
/// clock.
pub struct AnimComp {
    pub id: String,
    pub frame_num: u32,
    pub delay_millis: u64,
    pub current_millis: u64,
    pub repeat: bool,
    pub dirty: bool,
}

impl AnimComp {
    pub fn new(id: String, repeat: bool) -> (r: Self)
        ensures
            r.id == id,
            r.frame_num == 0,
            r.delay_millis == FRAME_DELAY_MILLIS,
            r.current_millis == 0,
            r.repeat == repeat,
            r.dirty,
    {
        Self {
            id,
            frame_num: 0,
            delay_millis: FRAME_DELAY_MILLIS,
            current_millis: 0,
            repeat,
            dirty: true,
        }
    }

    /// Rewinds the animation clock.
    pub fn reset_time(&mut self)
        ensures
            *final(self) == (AnimComp { current_millis: 0, ..*old(self) }),
    {
        self.current_millis = 0;
    }

    /// Switches to another animation, restarting it from its first frame.
    pub fn change_id(&mut self, id: String, repeat: bool)
        ensures
            final(self).id == id,
            final(self).frame_num == 0,
            final(self).delay_millis == FRAME_DELAY_MILLIS,
            final(self).current_millis == 0,
            final(self).repeat == repeat,
            final(self).dirty,
    {
        self.id = id;
        self.frame_num = 0;
        self.delay_millis = FRAME_DELAY_MILLIS;
        self.current_millis = 0;
        self.repeat = repeat;
        self.dirty = true;
    }
}

/// The sprite an entity is currently drawn with.
pub struct SpriteComp {
    pub id: String,
}

impl SpriteComp {
    pub fn new(id: String) -> (r: Self)
        ensures
            r.id == id,
    {
        Self { id }
    }
}

} // verus!
