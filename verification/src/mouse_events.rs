//! Four buttons, one in each corner of the window, that show whether the
//! mouse is over them and whether it presses them.

use vstd::prelude::*;
use crate::event::MouseState;
use crate::rect::{Point, Rect};
use crate::screen::{SCREEN_HEIGHT, SCREEN_WIDTH};
use crate::texture::{Blit, LTexture};

verus! {

/// Number of buttons, and of images on the sprite sheet.
pub const TOTAL_BUTTONS: u32 = 4;

/// Width of a button.
pub const BUTTON_WIDTH: u32 = 300;

/// Height of a button.
pub const BUTTON_HEIGHT: u32 = 200;

/// The image that a button shows.
#[derive(Clone, Copy, Debug, PartialEq, Eq, Structural)]
pub enum LButtonSprite {
    ButtonSpriteMouseOut,
    ButtonSpriteMouseOverMotion,
    ButtonSpriteMouseDown,
    ButtonSpriteMouseUp,
}

impl LButtonSprite {
    /// Place of the image on the sprite sheet, counted from the top.
    pub open spec fn index_spec(self) -> int {
        match self {
            LButtonSprite::ButtonSpriteMouseOut => 0,
            LButtonSprite::ButtonSpriteMouseOverMotion => 1,
            LButtonSprite::ButtonSpriteMouseDown => 2,
            LButtonSprite::ButtonSpriteMouseUp => 3,
        }
    }

    /// Place of the image on the sprite sheet, counted from the top.
    pub fn index(self) -> (i: usize)
        ensures
            i == self.index_spec(),
            i < TOTAL_BUTTONS,
    {
        match self {
            LButtonSprite::ButtonSpriteMouseOut => 0,
            LButtonSprite::ButtonSpriteMouseOverMotion => 1,
            LButtonSprite::ButtonSpriteMouseDown => 2,
            LButtonSprite::ButtonSpriteMouseUp => 3,
        }
    }
}

/// A button: its top-left corner, the image it shows, and whether the mouse
/// has pressed it yet.
#[derive(Clone, Copy, Debug, PartialEq, Eq, Structural)]
pub struct LButton {
    pub position: Point,
    pub current_sprite: LButtonSprite,
    pub pressed: bool,
}

/// Whether the mouse is over a button with its top-left corner at
/// `position`. The button's four sides count as over it.
pub open spec fn mouse_over(position: Point, mouse: MouseState) -> bool {
    &&& position.x <= mouse.x <= position.x + BUTTON_WIDTH
    &&& position.y <= mouse.y <= position.y + BUTTON_HEIGHT
}

impl LButton {
    /// A button at `(x, y)` that the mouse has not touched.
    pub open spec fn new_from_point_spec(x: int, y: int) -> LButton {
        LButton {
            position: Point { x: x as i32, y: y as i32 },
            current_sprite: LButtonSprite::ButtonSpriteMouseOut,
            pressed: false,
        }
    }

    /// A button in the window's top-left corner that the mouse is not over.
    pub fn new() -> (button: LButton)
        ensures
            button == LButton::new_from_point_spec(0, 0),
    {
        LButton {
            position: Point::new(0, 0),
            current_sprite: LButtonSprite::ButtonSpriteMouseOut,
            pressed: false,
        }
    }

    /// A button with its top-left corner at `p` that the mouse is not over.
    pub fn new_from_point(p: Point) -> (button: LButton)
        ensures
            button == LButton::new_from_point_spec(p.x as int, p.y as int),
    {
        LButton { position: p, current_sprite: LButtonSprite::ButtonSpriteMouseOut, pressed: false }
    }

    /// The button after it has seen the mouse.
    ///
    /// Away from the button the mouse leaves it as it was, showing the
    /// mouse-out image. Over the button, a held left button presses it; a
    /// released one shows the mouse-up image on a button that was pressed
    /// before, and the mouse-over image on one that was not.
    pub open spec fn handle_event_spec(self, mouse: MouseState) -> LButton {
        if !mouse_over(self.position, mouse) {
            LButton { current_sprite: LButtonSprite::ButtonSpriteMouseOut, ..self }
        } else if mouse.left {
            LButton {
                current_sprite: LButtonSprite::ButtonSpriteMouseDown,
                pressed: true,
                ..self
            }
        } else if self.pressed {
            LButton { current_sprite: LButtonSprite::ButtonSpriteMouseUp, ..self }
        } else {
            LButton { current_sprite: LButtonSprite::ButtonSpriteMouseOverMotion, ..self }
        }
    }

    /// Shows the image that fits where the mouse is and what it does.
    pub fn handle_event(&mut self, mouse_state: &MouseState)
        ensures
            *final(self) == old(self).handle_event_spec(*mouse_state),
    {
        let mouse_x: i64 = mouse_state.x as i64;
        let mouse_y: i64 = mouse_state.y as i64;
        let x: i64 = self.position.x() as i64;
        let y: i64 = self.position.y() as i64;
        if (mouse_x < x) || (mouse_x > x + BUTTON_WIDTH as i64) || (mouse_y < y) || (mouse_y > y
            + BUTTON_HEIGHT as i64) {
            self.current_sprite = LButtonSprite::ButtonSpriteMouseOut;
        } else {
            self.current_sprite = if mouse_state.left {
                self.pressed = true;
                LButtonSprite::ButtonSpriteMouseDown
            } else {
                if self.pressed {
                    LButtonSprite::ButtonSpriteMouseUp
                } else {
                    LButtonSprite::ButtonSpriteMouseOverMotion
                }
            };
        }
    }

    /// The copy that draws the button: the image it shows, cut from the
    /// sprite sheet by `clips`.
    pub fn render(&self, texture: &LTexture, clips: &Vec<Rect>) -> (blit: Blit)
        requires
            self.current_sprite.index_spec() < clips@.len(),
        ensures
            blit == texture.render_spec(
                self.position.x,
                self.position.y,
                Some(clips@[self.current_sprite.index_spec()]),
            ),
    {
        let indx: usize = self.current_sprite.index();
        texture.render(self.position.x(), self.position.y(), Some(clips[indx]))
    }
}

/// Seeing the same mouse twice is as good as seeing it once.
pub proof fn lemma_handle_event_idempotent(button: LButton, mouse: MouseState)
    ensures
        button.handle_event_spec(mouse).handle_event_spec(mouse) == button.handle_event_spec(mouse),
{
}

/// A button that was pressed once stays pressed, and the mouse never moves
/// a button.
pub proof fn lemma_pressed_stays(button: LButton, mouse: MouseState)
    ensures
        button.pressed ==> button.handle_event_spec(mouse).pressed,
        button.handle_event_spec(mouse).position == button.position,
{
}

/// The part of the sprite sheet that holds the `i`-th image: the images
/// are stacked, each as large as a button.
pub open spec fn clip_rect(i: int) -> Rect {
    Rect { x: 0, y: (i * BUTTON_HEIGHT) as i32, w: BUTTON_WIDTH as i32, h: BUTTON_HEIGHT as i32 }
}

/// The parts of the sprite sheet, one for each image.
pub fn clip_rects() -> (clips: Vec<Rect>)
    ensures
        clips@.len() == TOTAL_BUTTONS,
        forall|i: int| 0 <= i < TOTAL_BUTTONS ==> #[trigger] clips@[i] == clip_rect(i),
{
    let mut clip_rects: Vec<Rect> = Vec::new();
    let mut i: u32 = 0;
    while i < TOTAL_BUTTONS
        invariant
            i <= TOTAL_BUTTONS,
            clip_rects@.len() == i,
            forall|k: int| 0 <= k < i ==> #[trigger] clip_rects@[k] == clip_rect(k),
        decreases TOTAL_BUTTONS - i,
    {
        clip_rects.push(Rect::new(0, i as i32 * 200, BUTTON_WIDTH, BUTTON_HEIGHT));
        i += 1;
    }
    clip_rects
}

/// The four buttons, one in each corner of the window: top left, top right,
/// bottom left, bottom right.
pub fn initialize_buttons() -> (buttons: [LButton; 4])
    ensures
        buttons@[0] == LButton::new_from_point_spec(0, 0),
        buttons@[1] == LButton::new_from_point_spec(SCREEN_WIDTH - BUTTON_WIDTH, 0),
        buttons@[2] == LButton::new_from_point_spec(0, SCREEN_HEIGHT - BUTTON_HEIGHT),
        buttons@[3] == LButton::new_from_point_spec(
            SCREEN_WIDTH - BUTTON_WIDTH,
            SCREEN_HEIGHT - BUTTON_HEIGHT,
        ),
{
    [
        LButton::new(),
        LButton::new_from_point(Point::new((SCREEN_WIDTH - BUTTON_WIDTH) as i32, 0)),
        LButton::new_from_point(Point::new(0, (SCREEN_HEIGHT - BUTTON_HEIGHT) as i32)),
        LButton::new_from_point(
            Point::new((SCREEN_WIDTH - BUTTON_WIDTH) as i32, (SCREEN_HEIGHT - BUTTON_HEIGHT) as i32),
        ),
    ]
}

} // verus!
