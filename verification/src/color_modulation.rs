//! A tint of red, green and blue that the keyboard turns up and down.

use vstd::prelude::*;
use crate::event::Key;
use crate::rect::Rect;
use crate::texture::{Blit, LTexture};

verus! {

/// How much one key press changes a colour.
pub const TINT_STEP: u8 = 32;

/// A colour turned up by one step, where it stays below the step before
/// full; else as it is.
pub open spec fn raise_spec(colour: u8) -> u8 {
    if colour < 224 {
        (colour + 32) as u8
    } else {
        colour
    }
}

/// A colour turned down by one step, where it is more than a step; else as
/// it is.
pub open spec fn lower_spec(colour: u8) -> u8 {
    if colour > 32 {
        (colour - 32) as u8
    } else {
        colour
    }
}

/// Turns a colour up by one step, unless that would pass full.
pub fn raise(colour: u8) -> (r: u8)
    ensures
        r == raise_spec(colour),
{
    if colour < 224 {
        colour + TINT_STEP
    } else {
        colour
    }
}

/// Turns a colour down by one step, unless it is no more than a step.
pub fn lower(colour: u8) -> (r: u8)
    ensures
        r == lower_spec(colour),
{
    if colour > 32 {
        colour - TINT_STEP
    } else {
        colour
    }
}

/// The tint of a texture.
#[derive(Clone, Copy, Debug, PartialEq, Eq, Structural)]
pub struct Tint {
    pub red: u8,
    pub green: u8,
    pub blue: u8,
}

impl Tint {
    /// The tint that leaves a texture's colours as they are.
    pub fn new() -> (tint: Tint)
        ensures
            tint == (Tint { red: 255, green: 255, blue: 255 }),
    {
        Tint { red: 255, green: 255, blue: 255 }
    }

    /// The tint after a key press: `Q`, `W` and `E` turn red, green and
    /// blue up, `A`, `S` and `D` turn them down.
    pub open spec fn handle_key_spec(self, key: Key) -> Tint {
        match key {
            Key::Q => Tint { red: raise_spec(self.red), ..self },
            Key::W => Tint { green: raise_spec(self.green), ..self },
            Key::E => Tint { blue: raise_spec(self.blue), ..self },
            Key::A => Tint { red: lower_spec(self.red), ..self },
            Key::S => Tint { green: lower_spec(self.green), ..self },
            Key::D => Tint { blue: lower_spec(self.blue), ..self },
            _ => self,
        }
    }

    /// Changes the tint as the pressed key asks.
    pub fn handle_key(&mut self, key: Key)
        ensures
            *final(self) == old(self).handle_key_spec(key),
    {
        match key {
            Key::Q => { self.red = raise(self.red); },
            Key::W => { self.green = raise(self.green); },
            Key::E => { self.blue = raise(self.blue); },
            Key::A => { self.red = lower(self.red); },
            Key::S => { self.green = lower(self.green); },
            Key::D => { self.blue = lower(self.blue); },
            _ => {},
        }
    }
}

/// The copy that draws a tinted texture at `(x, y)`: the rectangle that
/// [`LTexture::render_spec`] draws into is also the part of the texture
/// that is taken.
pub open spec fn render_spec(texture: LTexture, x: i32, y: i32, clip: Option<Rect>) -> Blit {
    let dest = texture.render_spec(x, y, clip).dest;
    Blit { clip: Some(dest), dest }
}

/// Works out the copy that draws a tinted texture with its top-left corner
/// at `(x, y)`.
pub fn render(texture: &LTexture, x: i32, y: i32, clip: Option<Rect>) -> (blit: Blit)
    ensures
        blit == render_spec(*texture, x, y, clip),
{
    let rect = texture.render(x, y, clip).dest;
    Blit { clip: Some(rect), dest: rect }
}

/// A step down that changed the colour is undone by a step up. A step up
/// that changed it is undone by a step down, unless it began at zero: one
/// step is not more than a step, so it cannot be turned down.
pub proof fn lemma_steps_undo_each_other(colour: u8)
    ensures
        lower_spec(colour) != colour ==> raise_spec(lower_spec(colour)) == colour,
        raise_spec(colour) != colour && colour != 0 ==> lower_spec(raise_spec(colour)) == colour,
{
}

/// From full, a colour only ever takes values one below a multiple of the
/// step, so it never gets darker than 31.
pub proof fn lemma_steps_keep_grid(colour: u8)
    requires
        colour % 32 == 31,
    ensures
        raise_spec(colour) % 32 == 31,
        lower_spec(colour) % 32 == 31,
        lower_spec(colour) >= 31,
{
}

} // verus!
