//! A walking figure: four frames on one sheet, shown in turn in the middle
//! of the window.

use vstd::prelude::*;
use crate::layout::{centered, centered_spec};
use crate::rect::Rect;
use crate::screen::{SCREEN_HEIGHT, SCREEN_WIDTH};
use crate::texture::{Blit, LTexture};

verus! {

/// Number of frames of the animation.
pub const WALKING_ANIMATION_FRAMES: usize = 4;

/// The parts of the sheet that hold the frames, in the order in which they
/// are shown.
pub fn sprite_clips() -> (clips: [Rect; 4])
    ensures
        clips@[0] == (Rect { x: 0, y: 0, w: 64, h: 205 }),
        clips@[1] == (Rect { x: 64, y: 0, w: 64, h: 205 }),
        clips@[2] == (Rect { x: 128, y: 0, w: 64, h: 205 }),
        clips@[3] == (Rect { x: 196, y: 0, w: 64, h: 205 }),
{
    [
        Rect::new(0, 0, 64, 205),
        Rect::new(64, 0, 64, 205),
        Rect::new(128, 0, 64, 205),
        Rect::new(196, 0, 64, 205),
    ]
}

/// The frame that follows `frame`: the next one, and the first after the
/// last.
pub open spec fn next_frame_spec(frame: int) -> int {
    if frame + 1 == WALKING_ANIMATION_FRAMES {
        0
    } else {
        frame + 1
    }
}

/// The frame that follows `frame`.
pub fn next_frame(frame: usize) -> (next: usize)
    requires
        frame < usize::MAX,
    ensures
        next == next_frame_spec(frame as int),
        frame < WALKING_ANIMATION_FRAMES ==> next < WALKING_ANIMATION_FRAMES,
{
    let mut frame: usize = frame;
    frame += 1;
    if frame == WALKING_ANIMATION_FRAMES {
        frame = 0
    };
    frame
}

/// Whether a frame cut out by `clip` fits in the window.
pub open spec fn fits_window(clip: Rect) -> bool {
    0 <= clip.w <= SCREEN_WIDTH && 0 <= clip.h <= SCREEN_HEIGHT
}

/// The part of the sheet that is shown at frame number `frame`.
pub open spec fn current_clip(clips: Seq<Rect>, frame: int) -> Rect {
    clips[frame % 4]
}

/// The copy that draws the part `clip` of the sheet in the middle of the
/// window.
pub open spec fn centered_blit(texture: LTexture, clip: Rect) -> Blit {
    texture.render_spec(
        centered_spec(SCREEN_WIDTH as int, clip.w as int) as i32,
        centered_spec(SCREEN_HEIGHT as int, clip.h as int) as i32,
        Some(clip),
    )
}

/// The copy that draws frame number `frame` in the middle of the window.
pub fn frame_blit(texture: &LTexture, clips: &[Rect; 4], frame: usize) -> (blit: Blit)
    requires
        fits_window(current_clip(clips@, frame as int)),
    ensures
        blit == centered_blit(*texture, current_clip(clips@, frame as int)),
{
    let current_clip: Rect = clips[frame % 4];
    texture.render(
        centered(SCREEN_WIDTH, current_clip.width()),
        centered(SCREEN_HEIGHT, current_clip.height()),
        Some(current_clip),
    )
}

/// Four steps on, the animation shows the frame it began with.
pub proof fn lemma_animation_cycles(frame: int)
    requires
        0 <= frame < WALKING_ANIMATION_FRAMES,
    ensures
        next_frame_spec(next_frame_spec(next_frame_spec(next_frame_spec(frame)))) == frame,
{
}

} // verus!
