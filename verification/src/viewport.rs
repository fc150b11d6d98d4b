//! Three views that share the window: two side by side in its upper half
//! and one across its lower half.

use vstd::prelude::*;
use crate::rect::Rect;
use crate::screen::{SCREEN_HEIGHT, SCREEN_WIDTH};

verus! {

/// The upper left quarter of the window.
pub fn top_left_viewport() -> (r: Rect)
    ensures
        r == (Rect { x: 0, y: 0, w: 320, h: 240 }),
{
    Rect::new(0, 0, SCREEN_WIDTH / 2, SCREEN_HEIGHT / 2)
}

/// The upper right quarter of the window.
pub fn top_right_viewport() -> (r: Rect)
    ensures
        r == (Rect { x: 320, y: 0, w: 320, h: 240 }),
{
    Rect::new((SCREEN_WIDTH / 2) as i32, 0, SCREEN_WIDTH / 2, SCREEN_HEIGHT / 2)
}

/// The lower half of the window.
pub fn bottom_viewport() -> (r: Rect)
    ensures
        r == (Rect { x: 0, y: 240, w: 640, h: 240 }),
{
    Rect::new(0, (SCREEN_HEIGHT / 2) as i32, SCREEN_WIDTH, SCREEN_HEIGHT / 2)
}

} // verus!
