//! The size of the window that every scene is played in.

use vstd::prelude::*;

verus! {

/// Width of the window in pixels.
pub const SCREEN_WIDTH: u32 = 640;

/// Height of the window in pixels.
pub const SCREEN_HEIGHT: u32 = 480;

} // verus!
