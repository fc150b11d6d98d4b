//! A dot that the arrow keys move about the window.

use vstd::prelude::*;
use crate::event::Event;
use crate::screen::{SCREEN_HEIGHT, SCREEN_WIDTH};
use crate::steering::{can_steer, impulse, steer};
use crate::texture::{Blit, LTexture};

verus! {

/// Width of the dot's image.
pub const DOT_WIDTH: i32 = 20;

/// Height of the dot's image.
pub const DOT_HEIGHT: i32 = 20;

/// Pixels per frame that one arrow key adds.
pub const DOT_VEL: i32 = 10;

/// One step along an axis on which the image may lie in `0 ..= limit`:
/// from `pos` by `vel`, or no step where the image of length `size` would
/// stick out.
pub open spec fn step_within(pos: int, vel: int, size: int, limit: int) -> int {
    if pos + vel < 0 || pos + vel + size > limit {
        pos
    } else {
        pos + vel
    }
}

/// A dot with the top-left corner of its image and its velocity.
#[derive(Clone, Copy, Debug, PartialEq, Eq, Structural)]
pub struct Dot {
    pub x_pos: i32,
    pub y_pos: i32,
    pub x_vel: i32,
    pub y_vel: i32,
}

impl Dot {
    /// A dot at rest in the window's top-left corner.
    pub fn new() -> (dot: Dot)
        ensures
            dot == (Dot { x_pos: 0, y_pos: 0, x_vel: 0, y_vel: 0 }),
    {
        Dot { x_pos: 0, y_pos: 0, x_vel: 0, y_vel: 0 }
    }

    /// Takes a key press or release into the velocity.
    pub fn handle_event(&mut self, event: &Event)
        requires
            can_steer(old(self).x_vel, old(self).y_vel, *event, DOT_VEL),
        ensures
            final(self).x_vel == old(self).x_vel + impulse(*event, DOT_VEL as int).0,
            final(self).y_vel == old(self).y_vel + impulse(*event, DOT_VEL as int).1,
            final(self).x_pos == old(self).x_pos,
            final(self).y_pos == old(self).y_pos,
    {
        let (x_vel, y_vel) = steer(self.x_vel, self.y_vel, event, DOT_VEL);
        self.x_vel = x_vel;
        self.y_vel = y_vel;
    }

    /// Whether the whole image lies in the window.
    pub open spec fn on_screen(self) -> bool {
        &&& 0 <= self.x_pos && self.x_pos + DOT_WIDTH <= SCREEN_WIDTH
        &&& 0 <= self.y_pos && self.y_pos + DOT_HEIGHT <= SCREEN_HEIGHT
    }

    /// Moves the dot by its velocity, and takes back the step along each
    /// axis that would leave the window.
    pub fn move_position(&mut self)
        ensures
            final(self).x_pos == step_within(
                old(self).x_pos as int,
                old(self).x_vel as int,
                DOT_WIDTH as int,
                SCREEN_WIDTH as int,
            ),
            final(self).y_pos == step_within(
                old(self).y_pos as int,
                old(self).y_vel as int,
                DOT_HEIGHT as int,
                SCREEN_HEIGHT as int,
            ),
            final(self).x_vel == old(self).x_vel,
            final(self).y_vel == old(self).y_vel,
            old(self).on_screen() ==> final(self).on_screen(),
    {
        // Move the dot left or right
        let x: i64 = self.x_pos as i64 + self.x_vel as i64;
        // If the dot went too far to the left or right
        if !(x < 0 || x + DOT_WIDTH as i64 > SCREEN_WIDTH as i64) {
            self.x_pos = x as i32;
        }
        // Move the dot up or down
        let y: i64 = self.y_pos as i64 + self.y_vel as i64;
        // If the dot went too far up or down
        if !(y < 0 || y + DOT_HEIGHT as i64 > SCREEN_HEIGHT as i64) {
            self.y_pos = y as i32;
        }
    }

    /// The copy that draws the dot.
    pub fn render(&self, dot_texture: &LTexture) -> (blit: Blit)
        ensures
            blit == dot_texture.render_spec(self.x_pos, self.y_pos, None),
    {
        dot_texture.render(self.x_pos, self.y_pos, None)
    }
}

} // verus!
