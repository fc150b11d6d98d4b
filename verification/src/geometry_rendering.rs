//! The shapes of a test picture: a filled box, an outlined box, a line and
//! a dotted line, laid out by the size of the window.

use vstd::prelude::*;
use crate::rect::{Point, Rect};
use crate::screen::{SCREEN_HEIGHT, SCREEN_WIDTH};

verus! {

/// Pixels from one dot of the dotted line to the next.
pub const DOT_SPACING: u32 = 4;

/// The filled box: half the window wide and high, in its middle.
pub fn filled_rect() -> (r: Rect)
    ensures
        r == (Rect { x: 160, y: 120, w: 320, h: 240 }),
{
    Rect::new(
        (SCREEN_WIDTH / 4) as i32,
        (SCREEN_HEIGHT / 4) as i32,
        SCREEN_WIDTH / 2,
        SCREEN_HEIGHT / 2,
    )
}

/// The outlined box: two thirds of the window wide and high, in its middle.
pub fn outlined_rect() -> (r: Rect)
    ensures
        r == (Rect { x: 106, y: 80, w: 426, h: 320 }),
{
    Rect::new(
        (SCREEN_WIDTH / 6) as i32,
        (SCREEN_HEIGHT / 6) as i32,
        SCREEN_WIDTH * 2 / 3,
        SCREEN_HEIGHT * 2 / 3,
    )
}

/// The two ends of the line that runs across the window at half its height.
pub fn horizontal_line() -> (ends: (Point, Point))
    ensures
        ends.0 == (Point { x: 0, y: 240 }),
        ends.1 == (Point { x: 640, y: 240 }),
{
    (
        Point::new(0, (SCREEN_HEIGHT / 2) as i32),
        Point::new(SCREEN_WIDTH as i32, (SCREEN_HEIGHT / 2) as i32),
    )
}

/// The dots of the line that runs down the middle of the window, from the
/// top: one every `DOT_SPACING` pixels.
pub fn dotted_line() -> (dots: Vec<Point>)
    ensures
        dots@.len() == 120,
        forall|k: int|
            0 <= k < 120 ==> #[trigger] dots@[k] == (Point { x: 320, y: (4 * k) as i32 }),
{
    let mut dots: Vec<Point> = Vec::new();
    let mut i: u32 = 0;
    while i < SCREEN_HEIGHT
        invariant
            i % 4 == 0,
            i <= SCREEN_HEIGHT,
            dots@.len() == i / 4,
            forall|k: int|
                0 <= k < dots@.len() ==> #[trigger] dots@[k] == (Point {
                    x: 320,
                    y: (4 * k) as i32,
                }),
        decreases SCREEN_HEIGHT - i,
    {
        dots.push(Point::new((SCREEN_WIDTH / 2) as i32, i as i32));
        i += DOT_SPACING;
    }
    dots
}

} // verus!
