//! Where a texture lands when it is drawn.

use vstd::prelude::*;
use crate::rect::Rect;

verus! {

/// One copy from a texture to the screen: the part of the texture to take
/// (all of it where `clip` is `None`) and the rectangle to draw it into.
#[derive(Clone, Copy, Debug, PartialEq, Eq, Structural)]
pub struct Blit {
    pub clip: Option<Rect>,
    pub dest: Rect,
}

/// The size of a loaded texture.
#[derive(Clone, Copy, Debug, PartialEq, Eq, Structural)]
pub struct LTexture {
    pub width: u32,
    pub height: u32,
}

impl LTexture {
    /// A texture of the given size in pixels.
    pub fn new(width: u32, height: u32) -> (t: LTexture)
        ensures
            t.width == width,
            t.height == height,
    {
        LTexture { width, height }
    }

    /// The copy that draws the texture with its top-left corner at `(x, y)`.
    ///
    /// With a clip, the clip's size is drawn; without one, the whole texture.
    pub open spec fn render_spec(self, x: i32, y: i32, clip: Option<Rect>) -> Blit {
        match clip {
            Some(rect) => Blit {
                clip,
                dest: Rect::new_spec(x, y, rect.width_spec() as u32, rect.height_spec() as u32),
            },
            None => Blit { clip, dest: Rect::new_spec(x, y, self.width, self.height) },
        }
    }

    /// Works out the copy that draws the texture, or the part `clip` of it,
    /// with its top-left corner at `(x, y)`.
    pub fn render(&self, x: i32, y: i32, clip: Option<Rect>) -> (blit: Blit)
        ensures
            blit == self.render_spec(x, y, clip),
    {
        let dest = match clip {
            Some(rect) => Rect::new(x, y, rect.width(), rect.height()),
            None => Rect::new(x, y, self.width, self.height),
        };
        Blit { clip, dest }
    }
}

} // verus!
