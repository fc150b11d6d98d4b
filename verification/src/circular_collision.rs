//! A round dot that stops at the window's edge, at a wall and at another
//! dot, with collision tests for circles.

use vstd::prelude::*;
use crate::event::Event;
use crate::rect::{clamp_position_spec, clamp_position_wide, Rect};
use crate::screen::{SCREEN_HEIGHT, SCREEN_WIDTH};
use crate::steering::{can_steer, impulse, steer};
use crate::texture::{Blit, LTexture};

verus! {

/// Width of the dot's image.
pub const DOT_WIDTH: u32 = 20;

/// Height of the dot's image.
pub const DOT_HEIGHT: u32 = 20;

/// Radius of the dot: half the width of its image.
pub const DOT_RADIUS: i32 = 10;

/// Pixels per frame that one arrow key adds.
pub const DOT_VEL: i32 = 1;

/// A circle: its centre and its radius.
#[derive(Clone, Copy, Debug, PartialEq, Eq, Structural)]
pub struct Circle {
    pub x: i32,
    pub y: i32,
    pub r: i32,
}

impl Circle {
    /// The circle round `(x, y)` with radius `r`.
    pub fn new(x: i32, y: i32, r: i32) -> (c: Circle)
        ensures
            c == (Circle { x, y, r }),
    {
        Circle { x, y, r }
    }
}

/// The square of the distance between `(x1, y1)` and `(x2, y2)`.
pub open spec fn distance_squared_spec(x1: int, y1: int, x2: int, y2: int) -> int {
    (x2 - x1) * (x2 - x1) + (y2 - y1) * (y2 - y1)
}

/// The value in `lo ..= hi` that is nearest to `v`.
pub open spec fn nearest(v: int, lo: int, hi: int) -> int {
    if v < lo {
        lo
    } else if v > hi {
        hi
    } else {
        v
    }
}

/// A circle and a rectangle collide when the point of the rectangle that is
/// nearest to the circle's centre is less than a radius away from it.
pub open spec fn circle_hits_rect(a: Circle, b: Rect) -> bool {
    let closest_x = nearest(a.x as int, b.left(), b.right());
    let closest_y = nearest(a.y as int, b.top(), b.bottom());
    distance_squared_spec(a.x as int, a.y as int, closest_x, closest_y) < a.r * a.r
}

/// Two circles collide when their centres are less than the sum of their
/// radii apart.
pub open spec fn circles_hit(a: Circle, b: Circle) -> bool {
    distance_squared_spec(a.x as int, a.y as int, b.x as int, b.y as int) < (a.r + b.r) * (a.r
        + b.r)
}

/// The square of a number of up to 34 bits.
fn square(v: i64) -> (s: i128)
    requires
        -0x2_0000_0000 <= v <= 0x2_0000_0000,
    ensures
        s == v * v,
        0 <= s <= 0x4_0000_0000_0000_0000,
{
    assert(0 <= v * v <= 0x4_0000_0000_0000_0000) by (nonlinear_arith)
        requires
            -0x2_0000_0000 <= v <= 0x2_0000_0000,
    ;
    (v as i128) * (v as i128)
}

/// The square of the distance between two points, with room for any `i32`
/// coordinates.
fn distance_squared_wide(x1: i64, y1: i64, x2: i64, y2: i64) -> (d: i128)
    requires
        -0x1_0000_0000 <= x1 <= 0x1_0000_0000,
        -0x1_0000_0000 <= y1 <= 0x1_0000_0000,
        -0x1_0000_0000 <= x2 <= 0x1_0000_0000,
        -0x1_0000_0000 <= y2 <= 0x1_0000_0000,
    ensures
        d == distance_squared_spec(x1 as int, y1 as int, x2 as int, y2 as int),
        d >= 0,
{
    let delta_x: i64 = x2 - x1;
    let delta_y: i64 = y2 - y1;
    square(delta_x) + square(delta_y)
}

/// The square of the distance between `(x1, y1)` and `(x2, y2)`, where it
/// fits in an `i32`.
pub fn distance_squared(x1: i32, y1: i32, x2: i32, y2: i32) -> (d: i32)
    requires
        distance_squared_spec(x1 as int, y1 as int, x2 as int, y2 as int) <= i32::MAX,
    ensures
        d == distance_squared_spec(x1 as int, y1 as int, x2 as int, y2 as int),
{
    let d: i128 = distance_squared_wide(x1 as i64, y1 as i64, x2 as i64, y2 as i64);
    d as i32
}

/// Whether the circle `a` and the rectangle `b` collide.
pub fn check_collision1(a: &Circle, b: &Rect) -> (hit: bool)
    ensures
        hit == circle_hits_rect(*a, *b),
{
    let ax: i64 = a.x as i64;
    let ay: i64 = a.y as i64;
    let right: i64 = b.x as i64 + b.w as i64;
    let bottom: i64 = b.y as i64 + b.h as i64;

    // Find closest x offset
    let closest_x: i64 = if ax < b.x as i64 {
        b.x as i64
    } else if ax > right {
        right
    } else {
        ax
    };

    // Find closest y offset
    let closest_y: i64 = if ay < b.y as i64 {
        b.y as i64
    } else if ay > bottom {
        bottom
    } else {
        ay
    };

    // If the closest point is inside the circle
    distance_squared_wide(ax, ay, closest_x, closest_y) < square(a.r as i64)
}

/// Whether the circles `a` and `b` collide.
pub fn check_collision2(a: &Circle, b: &Circle) -> (hit: bool)
    ensures
        hit == circles_hit(*a, *b),
{
    // Calculate total radius squared
    let total_radius: i64 = a.r as i64 + b.r as i64;
    let total_radius_squared: i128 = square(total_radius);

    // If the distance between the centers of the circles is less than the sum of their radii
    distance_squared_wide(a.x as i64, a.y as i64, b.x as i64, b.y as i64) < total_radius_squared
}

/// No number in `lo ..= hi` is nearer to `v` than `nearest(v, lo, hi)`.
pub proof fn lemma_nearest_is_nearest(v: int, lo: int, hi: int, p: int)
    requires
        lo <= p <= hi,
    ensures
        lo <= nearest(v, lo, hi) <= hi,
        (nearest(v, lo, hi) - v) * (nearest(v, lo, hi) - v) <= (p - v) * (p - v),
{
    let n = nearest(v, lo, hi);
    assert((n - v) * (n - v) <= (p - v) * (p - v)) by (nonlinear_arith)
        requires
            (v <= n <= p) || (p <= n <= v),
    ;
}

/// A circle collides with a rectangle exactly when some point of the
/// rectangle, its sides included, is less than a radius away from the
/// circle's centre.
pub proof fn lemma_circle_hits_rect_iff_reaches(a: Circle, b: Rect)
    requires
        b.w >= 0,
        b.h >= 0,
    ensures
        circle_hits_rect(a, b) <==> exists|px: int, py: int|
            b.left() <= px <= b.right() && b.top() <= py <= b.bottom()
                && #[trigger] distance_squared_spec(a.x as int, a.y as int, px, py) < a.r * a.r,
{
    let closest_x = nearest(a.x as int, b.left(), b.right());
    let closest_y = nearest(a.y as int, b.top(), b.bottom());
    if circle_hits_rect(a, b) {
        lemma_nearest_is_nearest(a.x as int, b.left(), b.right(), b.left());
        lemma_nearest_is_nearest(a.y as int, b.top(), b.bottom(), b.top());
        assert(b.left() <= closest_x <= b.right() && b.top() <= closest_y <= b.bottom()
            && distance_squared_spec(a.x as int, a.y as int, closest_x, closest_y) < a.r * a.r);
    }
    assert forall|px: int, py: int|
        b.left() <= px <= b.right() && b.top() <= py <= b.bottom()
            && #[trigger] distance_squared_spec(a.x as int, a.y as int, px, py) < a.r
            * a.r implies circle_hits_rect(a, b) by {
        lemma_nearest_is_nearest(a.x as int, b.left(), b.right(), px);
        lemma_nearest_is_nearest(a.y as int, b.top(), b.bottom(), py);
    }
}

/// Whether two circles collide does not depend on which is named first.
pub proof fn lemma_circles_hit_symmetric(a: Circle, b: Circle)
    ensures
        circles_hit(a, b) == circles_hit(b, a),
{
    assert((b.x - a.x) * (b.x - a.x) == (a.x - b.x) * (a.x - b.x)) by (nonlinear_arith);
    assert((b.y - a.y) * (b.y - a.y) == (a.y - b.y) * (a.y - b.y)) by (nonlinear_arith);
    assert((a.r + b.r) * (a.r + b.r) == (b.r + a.r) * (b.r + a.r)) by (nonlinear_arith);
}

/// The circle that a dot centred on `(x, y)` fills.
pub open spec fn collider_at(x: int, y: int) -> Circle {
    Circle { x: x as i32, y: y as i32, r: DOT_RADIUS }
}

/// A dot with its centre, its velocity and the circle it fills.
#[derive(Clone, Copy, Debug, PartialEq, Eq, Structural)]
pub struct Dot {
    pub x_pos: i32,
    pub y_pos: i32,
    pub x_vel: i32,
    pub y_vel: i32,
    pub collider: Circle,
}

impl Dot {
    /// The circle lies where the dot is.
    pub open spec fn wf(self) -> bool {
        self.collider == collider_at(self.x_pos as int, self.y_pos as int)
    }

    /// A dot at rest, centred on `(x, y)`.
    pub fn new(x: i32, y: i32) -> (dot: Dot)
        ensures
            dot.wf(),
            dot.x_pos == x,
            dot.y_pos == y,
            dot.x_vel == 0,
            dot.y_vel == 0,
    {
        let collider = Circle::new(x, y, DOT_RADIUS);
        Dot { x_pos: x, y_pos: y, x_vel: 0, y_vel: 0, collider }
    }

    /// Takes a key press or release into the velocity.
    pub fn handle_event(&mut self, event: &Event)
        requires
            can_steer(old(self).x_vel, old(self).y_vel, *event, DOT_VEL),
        ensures
            final(self).x_vel == old(self).x_vel + impulse(*event, DOT_VEL as int).0,
            final(self).y_vel == old(self).y_vel + impulse(*event, DOT_VEL as int).1,
            final(self).x_pos == old(self).x_pos,
            final(self).y_pos == old(self).y_pos,
            final(self).collider == old(self).collider,
    {
        let (x_vel, y_vel) = steer(self.x_vel, self.y_vel, event, DOT_VEL);
        self.x_vel = x_vel;
        self.y_vel = y_vel;
    }

    /// Whether a dot centred on `(x, y)` sticks out of the window to the
    /// left or right, or collides with `square` or with `circle`.
    pub open spec fn x_blocked(x: int, y: int, square: Rect, circle: Circle) -> bool {
        ||| x - DOT_RADIUS < 0
        ||| x + DOT_RADIUS > SCREEN_WIDTH
        ||| circle_hits_rect(collider_at(x, y), square)
        ||| circles_hit(collider_at(x, y), circle)
    }

    /// Whether a dot centred on `(x, y)` sticks out of the window at the top
    /// or bottom, or collides with `square` or with `circle`.
    pub open spec fn y_blocked(x: int, y: int, square: Rect, circle: Circle) -> bool {
        ||| y - DOT_RADIUS < 0
        ||| y + DOT_RADIUS > SCREEN_HEIGHT
        ||| circle_hits_rect(collider_at(x, y), square)
        ||| circles_hit(collider_at(x, y), circle)
    }

    /// The x position after one frame: one step on, unless the dot is
    /// blocked there.
    pub open spec fn step_x(self, square: Rect, circle: Circle) -> int {
        let x = self.x_pos + self.x_vel;
        if Dot::x_blocked(x, self.y_pos as int, square, circle) {
            self.x_pos as int
        } else {
            x
        }
    }

    /// The y position after one frame, the x step taken first.
    pub open spec fn step_y(self, square: Rect, circle: Circle) -> int {
        let y = self.y_pos + self.y_vel;
        if Dot::y_blocked(self.step_x(square, circle), y, square, circle) {
            self.y_pos as int
        } else {
            y
        }
    }

    /// Moves the dot by its velocity, first along x and then along y, and
    /// takes back each of the two steps that would leave the window or run
    /// into `square` or `circle`.
    pub fn move_position(&mut self, square: &Rect, circle: &Circle)
        requires
            old(self).wf(),
        ensures
            final(self).wf(),
            final(self).x_pos == old(self).step_x(*square, *circle),
            final(self).y_pos == old(self).step_y(*square, *circle),
            final(self).x_vel == old(self).x_vel,
            final(self).y_vel == old(self).y_vel,
    {
        // Move the dot left or right
        let x: i64 = self.x_pos as i64 + self.x_vel as i64;
        if !(x - (self.collider.r as i64) < 0 || x + self.collider.r as i64 > SCREEN_WIDTH as i64) {
            let back: i32 = self.x_pos;
            self.x_pos = x as i32;
            self.shift_colliders();
            if check_collision1(&self.collider, square) || check_collision2(&self.collider, circle) {
                // Move back
                self.x_pos = back;
                self.shift_colliders();
            }
        }
        // Move the dot up or down
        let y: i64 = self.y_pos as i64 + self.y_vel as i64;
        if !(y - (self.collider.r as i64) < 0 || y + self.collider.r as i64 > SCREEN_HEIGHT as i64) {
            let back: i32 = self.y_pos;
            self.y_pos = y as i32;
            self.shift_colliders();
            if check_collision1(&self.collider, square) || check_collision2(&self.collider, circle) {
                // Move back
                self.y_pos = back;
                self.shift_colliders();
            }
        }
    }

    /// The copy that draws the dot: its image has its top-left corner one
    /// radius left of and above the centre.
    pub open spec fn render_spec(self, dot_texture: LTexture) -> Blit {
        dot_texture.render_spec(
            clamp_position_spec(self.x_pos - self.collider.r) as i32,
            clamp_position_spec(self.y_pos - self.collider.r) as i32,
            None,
        )
    }

    /// The copy that draws the dot.
    pub fn render(&self, dot_texture: &LTexture) -> (blit: Blit)
        ensures
            blit == self.render_spec(*dot_texture),
    {
        let x: i32 = clamp_position_wide(self.x_pos as i64 - self.collider.r as i64);
        let y: i32 = clamp_position_wide(self.y_pos as i64 - self.collider.r as i64);
        dot_texture.render(x, y, None)
    }

    /// The circle that the dot fills.
    pub fn get_collider(&self) -> (collider: &Circle)
        ensures
            *collider == self.collider,
    {
        &self.collider
    }

    /// Moves the circle to where the dot is.
    pub fn shift_colliders(&mut self)
        ensures
            final(self).collider == (Circle {
                x: old(self).x_pos,
                y: old(self).y_pos,
                r: old(self).collider.r,
            }),
            final(self).x_pos == old(self).x_pos,
            final(self).y_pos == old(self).y_pos,
            final(self).x_vel == old(self).x_vel,
            final(self).y_vel == old(self).y_vel,
    {
        self.collider.x = self.x_pos;
        self.collider.y = self.y_pos;
    }
}

/// A dot that lies in the window and clear of the wall and of the other
/// circle does so after a frame too.
pub proof fn lemma_step_stays_clear(dot: Dot, square: Rect, circle: Circle)
    requires
        !Dot::x_blocked(dot.x_pos as int, dot.y_pos as int, square, circle),
        !Dot::y_blocked(dot.x_pos as int, dot.y_pos as int, square, circle),
    ensures
        !Dot::x_blocked(dot.step_x(square, circle), dot.step_y(square, circle), square, circle),
        !Dot::y_blocked(dot.step_x(square, circle), dot.step_y(square, circle), square, circle),
{
}

} // verus!
