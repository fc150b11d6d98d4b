//! Four sprites cut from one sheet and drawn into the corners of the
//! window.

use vstd::prelude::*;
use crate::rect::Rect;
use crate::screen::{SCREEN_HEIGHT, SCREEN_WIDTH};
use crate::texture::{Blit, LTexture};

verus! {

/// Number of sprites on the sheet.
pub const TOTAL_SPRITES: usize = 4;

/// Width and height of a sprite on the sheet.
pub const SPRITE_SIZE: u32 = 100;

/// The part of the sheet that holds the `i`-th sprite: two rows of two.
pub open spec fn sprite_clip(i: int) -> Rect {
    Rect {
        x: ((i % 2) * SPRITE_SIZE) as i32,
        y: ((i / 2) * SPRITE_SIZE) as i32,
        w: SPRITE_SIZE as i32,
        h: SPRITE_SIZE as i32,
    }
}

/// The parts of the sheet that hold the sprites: top left, top right,
/// bottom left, bottom right.
pub fn sprite_clips() -> (clips: [Rect; 4])
    ensures
        forall|i: int| 0 <= i < TOTAL_SPRITES ==> #[trigger] clips@[i] == sprite_clip(i),
{
    [
        Rect::new(0, 0, 100, 100),
        Rect::new(100, 0, 100, 100),
        Rect::new(0, 100, 100, 100),
        Rect::new(100, 100, 100, 100),
    ]
}

/// Whether a sprite cut out by `clip` can be put into that corner: it is
/// no wider than the window where it goes to the right, and no higher
/// where it goes to the bottom.
pub open spec fn fits_corner(corner: int, clip: Rect) -> bool {
    &&& corner % 2 != 0 ==> 0 <= clip.w <= SCREEN_WIDTH
    &&& corner / 2 != 0 ==> 0 <= clip.h <= SCREEN_HEIGHT
}

/// Where the sprite cut out by `clip` is drawn so that it sits in a corner
/// of the window: the corners are counted like the sprites.
pub open spec fn corner_position(corner: int, clip: Rect) -> (int, int) {
    (
        if corner % 2 == 0 {
            0
        } else {
            SCREEN_WIDTH - clip.w
        },
        if corner / 2 == 0 {
            0
        } else {
            SCREEN_HEIGHT - clip.h
        },
    )
}

/// The copy that draws the part `clip` of the sheet into a corner of the
/// window.
pub fn corner_blit(texture: &LTexture, corner: usize, clip: Rect) -> (blit: Blit)
    requires
        corner < TOTAL_SPRITES,
        fits_corner(corner as int, clip),
    ensures
        blit == texture.render_spec(
            corner_position(corner as int, clip).0 as i32,
            corner_position(corner as int, clip).1 as i32,
            Some(clip),
        ),
{
    let x: i32 = if corner % 2 == 0 {
        0
    } else {
        (SCREEN_WIDTH - clip.width()) as i32
    };
    let y: i32 = if corner / 2 == 0 {
        0
    } else {
        (SCREEN_HEIGHT - clip.height()) as i32
    };
    texture.render(x, y, Some(clip))
}

} // verus!
