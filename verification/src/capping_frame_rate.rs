//! How long to wait after a frame so that no more than sixty are shown in a
//! second.

use vstd::prelude::*;

verus! {

/// Frames per second that are aimed at.
pub const SCREEN_FPS: u32 = 60;

/// Whole milliseconds that one frame may take.
pub const SCREEN_TICKS_PER_FRAME: u32 = 1000 / SCREEN_FPS;

/// The milliseconds to wait after a frame that took `frame_ticks`: what is
/// left of the frame's time, or `None` where the frame used it up.
pub fn frame_delay(frame_ticks: u32) -> (delay: Option<u32>)
    ensures
        frame_ticks < SCREEN_TICKS_PER_FRAME ==> delay == Some(
            (SCREEN_TICKS_PER_FRAME - frame_ticks) as u32,
        ),
        frame_ticks >= SCREEN_TICKS_PER_FRAME ==> delay.is_none(),
{
    // If frame finished early
    if frame_ticks < SCREEN_TICKS_PER_FRAME {
        // Wait remaining time
        Some(SCREEN_TICKS_PER_FRAME - frame_ticks)
    } else {
        None
    }
}

} // verus!
