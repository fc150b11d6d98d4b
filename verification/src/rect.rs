//! Rectangles and points in integer pixel coordinates.

use vstd::prelude::*;

verus! {

/// The largest size, and the largest position, that a constructor lets through.
///
/// Half of `i32::MAX`, so that the right and bottom side of a rectangle made
/// by [`Rect::new`] always fit in an `i32`.
pub const MAX_INT_VALUE: u32 = 0x3FFF_FFFF;

/// The smallest position that a constructor lets through: half of `i32::MIN`.
pub const MIN_INT_VALUE: i32 = -0x4000_0000;

/// A position, pulled into `MIN_INT_VALUE ..= MAX_INT_VALUE`.
pub open spec fn clamp_position_spec(val: int) -> int {
    if val > MAX_INT_VALUE as int {
        MAX_INT_VALUE as int
    } else if val < MIN_INT_VALUE as int {
        MIN_INT_VALUE as int
    } else {
        val
    }
}

/// A size, pulled into `1 ..= MAX_INT_VALUE`.
pub open spec fn clamp_size_spec(val: int) -> int {
    if val == 0 {
        1
    } else if val > MAX_INT_VALUE as int {
        MAX_INT_VALUE as int
    } else {
        val
    }
}

/// Pulls a position into `MIN_INT_VALUE ..= MAX_INT_VALUE`.
pub fn clamp_position(val: i32) -> (r: i32)
    ensures
        r == clamp_position_spec(val as int),
{
    if val > MAX_INT_VALUE as i32 {
        MAX_INT_VALUE as i32
    } else if val < MIN_INT_VALUE {
        MIN_INT_VALUE
    } else {
        val
    }
}

/// Pulls a position that was worked out in 64 bits into
/// `MIN_INT_VALUE ..= MAX_INT_VALUE`.
pub fn clamp_position_wide(val: i64) -> (r: i32)
    ensures
        r == clamp_position_spec(val as int),
{
    if val > MAX_INT_VALUE as i64 {
        MAX_INT_VALUE as i32
    } else if val < MIN_INT_VALUE as i64 {
        MIN_INT_VALUE
    } else {
        val as i32
    }
}

/// Pulls a size into `1 ..= MAX_INT_VALUE`: an empty side becomes one pixel.
pub fn clamp_size(val: u32) -> (r: u32)
    ensures
        r == clamp_size_spec(val as int),
{
    if val == 0 {
        1
    } else if val > MAX_INT_VALUE {
        MAX_INT_VALUE
    } else {
        val
    }
}

/// An axis-aligned rectangle: its top-left corner, its width and its height.
///
/// The fields are plain integers and may be set freely; only [`Rect::new`]
/// clamps what it is given.
#[derive(Clone, Copy, Debug, PartialEq, Eq, Structural)]
pub struct Rect {
    pub x: i32,
    pub y: i32,
    pub w: i32,
    pub h: i32,
}

impl Rect {
    /// The x coordinate of the left side.
    pub open spec fn left(self) -> int {
        self.x as int
    }

    /// The x coordinate just past the right side.
    pub open spec fn right(self) -> int {
        self.x + self.w
    }

    /// The y coordinate of the top side.
    pub open spec fn top(self) -> int {
        self.y as int
    }

    /// The y coordinate just past the bottom side.
    pub open spec fn bottom(self) -> int {
        self.y + self.h
    }

    /// Whether the pixel `(px, py)` lies in the rectangle: from the left and
    /// top side up to, but not including, the right and bottom side.
    pub open spec fn contains(self, px: int, py: int) -> bool {
        self.left() <= px < self.right() && self.top() <= py < self.bottom()
    }

    /// What [`Rect::new`] makes of a corner and a size.
    pub open spec fn new_spec(x: i32, y: i32, width: u32, height: u32) -> Rect {
        Rect {
            x: clamp_position_spec(x as int) as i32,
            y: clamp_position_spec(y as int) as i32,
            w: clamp_size_spec(width as int) as i32,
            h: clamp_size_spec(height as int) as i32,
        }
    }

    /// A rectangle with its top-left corner at `(x, y)`.
    ///
    /// The corner is clamped into `MIN_INT_VALUE ..= MAX_INT_VALUE` and each
    /// side into `1 ..= MAX_INT_VALUE`, so the result is never empty and its
    /// right and bottom side fit in an `i32`.
    pub fn new(x: i32, y: i32, width: u32, height: u32) -> (r: Rect)
        ensures
            r == Rect::new_spec(x, y, width, height),
            r.w >= 1,
            r.h >= 1,
            i32::MIN <= r.right() <= i32::MAX,
            i32::MIN <= r.bottom() <= i32::MAX,
    {
        Rect {
            x: clamp_position(x),
            y: clamp_position(y),
            w: clamp_size(width) as i32,
            h: clamp_size(height) as i32,
        }
    }

    /// The width read as an unsigned number: a negative `w` wraps round.
    pub open spec fn width_spec(self) -> int {
        if self.w >= 0 {
            self.w as int
        } else {
            self.w + 0x1_0000_0000
        }
    }

    /// The height read as an unsigned number: a negative `h` wraps round.
    pub open spec fn height_spec(self) -> int {
        if self.h >= 0 {
            self.h as int
        } else {
            self.h + 0x1_0000_0000
        }
    }

    /// The width as an unsigned number.
    pub fn width(&self) -> (r: u32)
        ensures
            r == self.width_spec(),
    {
        let w: i32 = self.w;
        assert(w >= 0 ==> w as u32 == w) by (bit_vector);
        assert(w < 0 ==> w as u32 == w + 0x1_0000_0000) by (bit_vector);
        w as u32
    }

    /// The height as an unsigned number.
    pub fn height(&self) -> (r: u32)
        ensures
            r == self.height_spec(),
    {
        let h: i32 = self.h;
        assert(h >= 0 ==> h as u32 == h) by (bit_vector);
        assert(h < 0 ==> h as u32 == h + 0x1_0000_0000) by (bit_vector);
        h as u32
    }
}

/// A point in pixel coordinates.
#[derive(Clone, Copy, Debug, PartialEq, Eq, Structural)]
pub struct Point {
    pub x: i32,
    pub y: i32,
}

impl Point {
    /// The point `(x, y)`, each coordinate clamped into
    /// `MIN_INT_VALUE ..= MAX_INT_VALUE`.
    pub fn new(x: i32, y: i32) -> (p: Point)
        ensures
            p.x == clamp_position_spec(x as int),
            p.y == clamp_position_spec(y as int),
    {
        Point { x: clamp_position(x), y: clamp_position(y) }
    }

    /// The x coordinate.
    pub fn x(self) -> (r: i32)
        ensures
            r == self.x,
    {
        self.x
    }

    /// The y coordinate.
    pub fn y(self) -> (r: i32)
        ensures
            r == self.y,
    {
        self.y
    }
}

} // verus!
