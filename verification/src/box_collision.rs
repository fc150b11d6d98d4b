//! A dot that stops at the window's edge and at a wall.

use vstd::prelude::*;
use crate::event::Event;
use crate::rect::Rect;
use crate::screen::{SCREEN_HEIGHT, SCREEN_WIDTH};
use crate::steering::{can_steer, impulse, steer};
use crate::texture::{Blit, LTexture};

verus! {

/// Width of the dot's image.
pub const DOT_WIDTH: u32 = 20;

/// Height of the dot's image.
pub const DOT_HEIGHT: u32 = 20;

/// Pixels per frame that one arrow key adds.
pub const DOT_VEL: i32 = 1;

/// Two rectangles overlap when each begins before the other ends, on both
/// axes. Rectangles that only share an edge do not overlap.
pub open spec fn rects_overlap(a: Rect, b: Rect) -> bool {
    &&& a.bottom() > b.top()
    &&& a.top() < b.bottom()
    &&& a.right() > b.left()
    &&& a.left() < b.right()
}

/// Whether `a` and `b` overlap.
pub fn check_collision(a: &Rect, b: &Rect) -> (hit: bool)
    ensures
        hit == rects_overlap(*a, *b),
{
    let left_a: i64 = a.x as i64;
    let right_a: i64 = a.x as i64 + a.w as i64;
    let top_a: i64 = a.y as i64;
    let bottom_a: i64 = a.y as i64 + a.h as i64;

    let left_b: i64 = b.x as i64;
    let right_b: i64 = b.x as i64 + b.w as i64;
    let top_b: i64 = b.y as i64;
    let bottom_b: i64 = b.y as i64 + b.h as i64;

    if bottom_a <= top_b {
        return false;
    }
    if top_a >= bottom_b {
        return false;
    }
    if right_a <= left_b {
        return false;
    }
    if left_a >= right_b {
        return false;
    }
    true
}

/// Overlap does not depend on which rectangle is named first.
pub proof fn lemma_overlap_symmetric(a: Rect, b: Rect)
    ensures
        rects_overlap(a, b) == rects_overlap(b, a),
{
}

/// Two rectangles that are not empty overlap exactly when some pixel lies
/// in both, a rectangle holding the pixels from its left and top side up to,
/// but not including, its right and bottom side.
pub proof fn lemma_overlap_iff_common_pixel(a: Rect, b: Rect)
    requires
        a.w > 0 && a.h > 0,
        b.w > 0 && b.h > 0,
    ensures
        rects_overlap(a, b) <==> exists|px: int, py: int|
            #[trigger] a.contains(px, py) && b.contains(px, py),
{
    if rects_overlap(a, b) {
        let px = if a.left() >= b.left() {
            a.left()
        } else {
            b.left()
        };
        let py = if a.top() >= b.top() {
            a.top()
        } else {
            b.top()
        };
        assert(a.contains(px, py) && b.contains(px, py));
    }
}

/// The box that a dot with its image at `(x, y)` fills.
pub open spec fn collider_at(x: int, y: int) -> Rect {
    Rect { x: x as i32, y: y as i32, w: DOT_WIDTH as i32, h: DOT_HEIGHT as i32 }
}

/// A dot with a position, a velocity and the box it fills.
#[derive(Clone, Copy, Debug, PartialEq, Eq, Structural)]
pub struct Dot {
    pub x_pos: i32,
    pub y_pos: i32,
    pub x_vel: i32,
    pub y_vel: i32,
    pub collider: Rect,
}

impl Dot {
    /// The box lies where the dot is.
    pub open spec fn wf(self) -> bool {
        self.collider == collider_at(self.x_pos as int, self.y_pos as int)
    }

    /// A dot at rest in the window's top-left corner.
    pub fn new() -> (dot: Dot)
        ensures
            dot.wf(),
            dot.x_pos == 0,
            dot.y_pos == 0,
            dot.x_vel == 0,
            dot.y_vel == 0,
    {
        let collider = Rect::new(0, 0, DOT_WIDTH, DOT_HEIGHT);
        Dot { x_pos: 0, y_pos: 0, x_vel: 0, y_vel: 0, collider }
    }

    /// Takes a key press or release into the velocity.
    pub fn handle_event(&mut self, event: &Event)
        requires
            can_steer(old(self).x_vel, old(self).y_vel, *event, DOT_VEL),
        ensures
            final(self).x_vel == old(self).x_vel + impulse(*event, DOT_VEL as int).0,
            final(self).y_vel == old(self).y_vel + impulse(*event, DOT_VEL as int).1,
            final(self).x_pos == old(self).x_pos,
            final(self).y_pos == old(self).y_pos,
            final(self).collider == old(self).collider,
    {
        let (x_vel, y_vel) = steer(self.x_vel, self.y_vel, event, DOT_VEL);
        self.x_vel = x_vel;
        self.y_vel = y_vel;
    }

    /// Whether a dot with its image at `(x, y)` sticks out of the window to
    /// the left or right, or overlaps `wall`.
    pub open spec fn x_blocked(x: int, y: int, wall: Rect) -> bool {
        x < 0 || x + DOT_WIDTH > SCREEN_WIDTH || rects_overlap(collider_at(x, y), wall)
    }

    /// Whether a dot with its image at `(x, y)` sticks out of the window at
    /// the top or bottom, or overlaps `wall`.
    pub open spec fn y_blocked(x: int, y: int, wall: Rect) -> bool {
        y < 0 || y + DOT_HEIGHT > SCREEN_HEIGHT || rects_overlap(collider_at(x, y), wall)
    }

    /// The x position after one frame: one step on, unless the dot is
    /// blocked there.
    pub open spec fn step_x(self, wall: Rect) -> int {
        let x = self.x_pos + self.x_vel;
        if Dot::x_blocked(x, self.y_pos as int, wall) {
            self.x_pos as int
        } else {
            x
        }
    }

    /// The y position after one frame, the x step taken first.
    pub open spec fn step_y(self, wall: Rect) -> int {
        let y = self.y_pos + self.y_vel;
        if Dot::y_blocked(self.step_x(wall), y, wall) {
            self.y_pos as int
        } else {
            y
        }
    }

    /// Moves the dot by its velocity, first along x and then along y, and
    /// takes back each of the two steps that would leave the window or run
    /// into `wall`.
    pub fn move_position(&mut self, wall: &Rect)
        requires
            old(self).wf(),
        ensures
            final(self).wf(),
            final(self).x_pos == old(self).step_x(*wall),
            final(self).y_pos == old(self).step_y(*wall),
            final(self).x_vel == old(self).x_vel,
            final(self).y_vel == old(self).y_vel,
    {
        // Move the dot left or right
        let x: i64 = self.x_pos as i64 + self.x_vel as i64;
        if !(x < 0 || x + DOT_WIDTH as i64 > SCREEN_WIDTH as i64) {
            let back: i32 = self.x_pos;
            self.x_pos = x as i32;
            self.collider.x = self.x_pos;
            if check_collision(&self.collider, wall) {
                // Move back
                self.x_pos = back;
                self.collider.x = self.x_pos;
            }
        }
        // Move the dot up or down
        let y: i64 = self.y_pos as i64 + self.y_vel as i64;
        if !(y < 0 || y + DOT_HEIGHT as i64 > SCREEN_HEIGHT as i64) {
            let back: i32 = self.y_pos;
            self.y_pos = y as i32;
            self.collider.y = self.y_pos;
            if check_collision(&self.collider, wall) {
                // Move back
                self.y_pos = back;
                self.collider.y = self.y_pos;
            }
        }
    }

    /// The copy that draws the dot.
    pub fn render(&self, dot_texture: &LTexture) -> (blit: Blit)
        ensures
            blit == dot_texture.render_spec(self.x_pos, self.y_pos, None),
    {
        dot_texture.render(self.x_pos, self.y_pos, None)
    }
}

/// A dot that lies in the window and clear of the wall does so after a
/// frame too: no step takes it out of the window or into the wall.
pub proof fn lemma_step_stays_clear(dot: Dot, wall: Rect)
    requires
        !Dot::x_blocked(dot.x_pos as int, dot.y_pos as int, wall),
        !Dot::y_blocked(dot.x_pos as int, dot.y_pos as int, wall),
    ensures
        !Dot::x_blocked(dot.step_x(wall), dot.step_y(wall), wall),
        !Dot::y_blocked(dot.step_x(wall), dot.step_y(wall), wall),
{
}

} // verus!
