//! An arrow that the keyboard turns and mirrors.

use vstd::prelude::*;
use crate::event::Key;

verus! {

/// Degrees that one key press turns the arrow by.
pub const DEGREES_PER_STEP: i32 = 60;

/// Degrees, clockwise, that a key press turns the arrow by: `A` turns it
/// one step back, `D` one step on, other keys not at all.
pub fn rotation_step(key: Key) -> (degrees: i32)
    ensures
        degrees == match key {
            Key::A => -DEGREES_PER_STEP,
            Key::D => DEGREES_PER_STEP as int,
            _ => 0,
        },
{
    match key {
        Key::A => -DEGREES_PER_STEP,
        Key::D => DEGREES_PER_STEP,
        _ => 0,
    }
}

/// How the arrow is mirrored.
#[derive(Clone, Copy, Debug, PartialEq, Eq, Structural)]
pub struct Flip {
    pub horizontal: bool,
    pub vertical: bool,
}

impl Flip {
    /// Not mirrored.
    pub fn new() -> (flip: Flip)
        ensures
            flip == (Flip { horizontal: false, vertical: false }),
    {
        Flip { horizontal: false, vertical: false }
    }

    /// The mirroring after a key press: `Q` mirrors left to right, `E` top
    /// to bottom, `W` undoes both.
    pub open spec fn handle_key_spec(self, key: Key) -> Flip {
        match key {
            Key::Q => Flip { horizontal: !self.horizontal, ..self },
            Key::W => Flip { horizontal: false, vertical: false },
            Key::E => Flip { vertical: !self.vertical, ..self },
            _ => self,
        }
    }

    /// Changes the mirroring as the pressed key asks.
    pub fn handle_key(&mut self, key: Key)
        ensures
            *final(self) == old(self).handle_key_spec(key),
    {
        match key {
            Key::Q => {
                self.horizontal = !self.horizontal;
            },
            Key::W => {
                self.horizontal = false;
                self.vertical = false;
            },
            Key::E => {
                self.vertical = !self.vertical;
            },
            _ => {},
        }
    }
}

/// Pressing a mirroring key twice leaves the arrow as it was.
pub proof fn lemma_flip_twice_is_identity(flip: Flip, key: Key)
    requires
        key == Key::Q || key == Key::E,
    ensures
        flip.handle_key_spec(key).handle_key_spec(key) == flip,
{
}

} // verus!
