//! A dot that roams a level larger than the window, and the camera that
//! follows it.

use vstd::prelude::*;
use crate::event::Event;
use crate::motion::step_within;
use crate::rect::{clamp_position_spec, clamp_position_wide, Rect};
use crate::screen::{SCREEN_HEIGHT, SCREEN_WIDTH};
use crate::steering::{can_steer, impulse, steer};
use crate::texture::{Blit, LTexture};

verus! {

/// Width of the level in pixels.
pub const LEVEL_WIDTH: u32 = 1280;

/// Height of the level in pixels.
pub const LEVEL_HEIGHT: u32 = 960;

/// Width of the dot's image.
pub const DOT_WIDTH: u32 = 20;

/// Height of the dot's image.
pub const DOT_HEIGHT: u32 = 20;

/// Pixels per frame that one arrow key adds.
pub const DOT_VEL: i32 = 1;

/// A dot with the top-left corner of its image, in level coordinates, and
/// its velocity.
#[derive(Clone, Copy, Debug, PartialEq, Eq, Structural)]
pub struct Dot {
    pub x_pos: i32,
    pub y_pos: i32,
    pub x_vel: i32,
    pub y_vel: i32,
}

impl Dot {
    /// A dot at rest with the top-left corner of its image at `(x, y)`.
    pub fn new(x: i32, y: i32) -> (dot: Dot)
        ensures
            dot == (Dot { x_pos: x, y_pos: y, x_vel: 0, y_vel: 0 }),
    {
        Dot { x_pos: x, y_pos: y, x_vel: 0, y_vel: 0 }
    }

    /// Takes a key press or release into the velocity.
    pub fn handle_event(&mut self, event: &Event)
        requires
            can_steer(old(self).x_vel, old(self).y_vel, *event, DOT_VEL),
        ensures
            final(self).x_vel == old(self).x_vel + impulse(*event, DOT_VEL as int).0,
            final(self).y_vel == old(self).y_vel + impulse(*event, DOT_VEL as int).1,
            final(self).x_pos == old(self).x_pos,
            final(self).y_pos == old(self).y_pos,
    {
        let (x_vel, y_vel) = steer(self.x_vel, self.y_vel, event, DOT_VEL);
        self.x_vel = x_vel;
        self.y_vel = y_vel;
    }

    /// Whether the whole image lies in the level.
    pub open spec fn in_level(self) -> bool {
        &&& 0 <= self.x_pos && self.x_pos + DOT_WIDTH <= LEVEL_WIDTH
        &&& 0 <= self.y_pos && self.y_pos + DOT_HEIGHT <= LEVEL_HEIGHT
    }

    /// Moves the dot by its velocity, and takes back the step along each
    /// axis that would leave the level.
    pub fn move_position(&mut self)
        ensures
            final(self).x_pos == step_within(
                old(self).x_pos as int,
                old(self).x_vel as int,
                DOT_WIDTH as int,
                LEVEL_WIDTH as int,
            ),
            final(self).y_pos == step_within(
                old(self).y_pos as int,
                old(self).y_vel as int,
                DOT_HEIGHT as int,
                LEVEL_HEIGHT as int,
            ),
            final(self).x_vel == old(self).x_vel,
            final(self).y_vel == old(self).y_vel,
            old(self).in_level() ==> final(self).in_level(),
    {
        // Move the dot left or right
        let x: i64 = self.x_pos as i64 + self.x_vel as i64;
        // If the dot went too far to the left or right
        if !(x < 0 || x + DOT_WIDTH as i64 > LEVEL_WIDTH as i64) {
            self.x_pos = x as i32;
        }
        // Move the dot up or down
        let y: i64 = self.y_pos as i64 + self.y_vel as i64;
        // If the dot went too far up or down
        if !(y < 0 || y + DOT_HEIGHT as i64 > LEVEL_HEIGHT as i64) {
            self.y_pos = y as i32;
        }
    }

    /// The copy that draws the dot as a camera at `(cam_x, cam_y)` sees it.
    pub open spec fn render_spec(self, dot_texture: LTexture, cam_x: i32, cam_y: i32) -> Blit {
        dot_texture.render_spec(
            clamp_position_spec(self.x_pos - cam_x) as i32,
            clamp_position_spec(self.y_pos - cam_y) as i32,
            None,
        )
    }

    /// The copy that draws the dot on the screen, relative to the camera.
    pub fn render(&self, dot_texture: &LTexture, cam_x: i32, cam_y: i32) -> (blit: Blit)
        ensures
            blit == self.render_spec(*dot_texture, cam_x, cam_y),
    {
        let x: i32 = clamp_position_wide(self.x_pos as i64 - cam_x as i64);
        let y: i32 = clamp_position_wide(self.y_pos as i64 - cam_y as i64);
        dot_texture.render(x, y, None)
    }
}

/// Where along one axis a camera of length `view` begins: half a screen
/// before `centre`, but not before the level's start, nor past the point
/// from which it sees the level's end.
pub open spec fn camera_origin(centre: int, half_screen: int, view: int, level: int) -> int {
    let origin = centre - half_screen;
    let origin = if origin < 0 {
        0
    } else {
        origin
    };
    if origin > level - view {
        level - view
    } else {
        origin
    }
}

/// The camera after it has been centred over `dot` and pulled back into the
/// level.
pub open spec fn follow_spec(camera: Rect, dot: Dot) -> Rect {
    Rect {
        x: camera_origin(
            dot.x_pos + DOT_WIDTH / 2,
            SCREEN_WIDTH as int / 2,
            camera.w as int,
            LEVEL_WIDTH as int,
        ) as i32,
        y: camera_origin(
            dot.y_pos + DOT_HEIGHT / 2,
            SCREEN_HEIGHT as int / 2,
            camera.h as int,
            LEVEL_HEIGHT as int,
        ) as i32,
        w: camera.w,
        h: camera.h,
    }
}

/// One axis of [`follow`].
fn origin_along(pos: i32, half_dot: i64, half_screen: i64, view: i32, level: i64) -> (r: i32)
    requires
        0 <= half_dot <= half_screen <= 0x1000,
        0 <= level <= 0x1000,
    ensures
        r == camera_origin(pos + half_dot, half_screen as int, view as int, level as int),
{
    let mut origin: i64 = (pos as i64 + half_dot) - half_screen;
    if origin < 0 {
        origin = 0;
    }
    if origin > level - view as i64 {
        origin = level - view as i64;
    }
    origin as i32
}

/// Centres the camera over the dot and keeps it in the level's bounds.
pub fn follow(camera: &mut Rect, dot: &Dot)
    ensures
        *final(camera) == follow_spec(*old(camera), *dot),
{
    camera.x = origin_along(
        dot.x_pos,
        DOT_WIDTH as i64 / 2,
        SCREEN_WIDTH as i64 / 2,
        camera.w,
        LEVEL_WIDTH as i64,
    );
    camera.y = origin_along(
        dot.y_pos,
        DOT_HEIGHT as i64 / 2,
        SCREEN_HEIGHT as i64 / 2,
        camera.h,
        LEVEL_HEIGHT as i64,
    );
}

/// A camera no larger than the level never looks past the level's sides.
pub proof fn lemma_camera_stays_in_level(camera: Rect, dot: Dot)
    requires
        0 <= camera.w <= LEVEL_WIDTH,
        0 <= camera.h <= LEVEL_HEIGHT,
    ensures
        0 <= follow_spec(camera, dot).left(),
        follow_spec(camera, dot).right() <= LEVEL_WIDTH,
        0 <= follow_spec(camera, dot).top(),
        follow_spec(camera, dot).bottom() <= LEVEL_HEIGHT,
{
}

/// Along each axis on which a camera as large as the window is not held
/// back by a side of the level, the dot's centre is the centre of what the
/// camera shows.
pub proof fn lemma_camera_centres_dot(camera: Rect, dot: Dot)
    ensures
        camera.w == SCREEN_WIDTH && SCREEN_WIDTH / 2 <= dot.x_pos + DOT_WIDTH / 2 <= LEVEL_WIDTH
            - SCREEN_WIDTH / 2 ==> follow_spec(camera, dot).left() + SCREEN_WIDTH / 2 == dot.x_pos
            + DOT_WIDTH / 2,
        camera.h == SCREEN_HEIGHT && SCREEN_HEIGHT / 2 <= dot.y_pos + DOT_HEIGHT / 2
            <= LEVEL_HEIGHT - SCREEN_HEIGHT / 2 ==> follow_spec(camera, dot).top() + SCREEN_HEIGHT
            / 2 == dot.y_pos + DOT_HEIGHT / 2,
{
}

} // verus!
