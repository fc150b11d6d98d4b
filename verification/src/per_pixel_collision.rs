//! A round dot whose outline is a stack of rectangles, one per row of
//! pixels, so that two dots collide only where their outlines touch.

use vstd::prelude::*;
use crate::box_collision::rects_overlap;
use crate::event::Event;
use crate::rect::Rect;
use crate::screen::{SCREEN_HEIGHT, SCREEN_WIDTH};
use crate::steering::{can_steer, impulse, steer};
use crate::texture::{Blit, LTexture};

verus! {

/// Width of the dot's image.
pub const DOT_WIDTH: u32 = 20;

/// Height of the dot's image.
pub const DOT_HEIGHT: u32 = 20;

/// Pixels per frame that one arrow key adds.
pub const DOT_VEL: i32 = 1;

/// Number of rectangles in the dot's outline.
pub const DOT_ROWS: usize = 11;

/// Width of the `i`-th rectangle of the outline, counted from the top.
pub open spec fn row_width(i: int) -> int {
    if i == 0 || i == 10 {
        6
    } else if i == 1 || i == 9 {
        10
    } else if i == 2 || i == 8 {
        14
    } else if i == 3 || i == 7 {
        16
    } else if i == 4 || i == 6 {
        18
    } else {
        20
    }
}

/// Height of the `i`-th rectangle of the outline.
pub open spec fn row_height(i: int) -> int {
    if i <= 2 || i >= 8 {
        1
    } else if i == 5 {
        6
    } else {
        2
    }
}

/// Distance from the dot's top to the top of the `i`-th rectangle: the
/// heights of the rectangles above it, added up.
pub open spec fn row_offset(i: int) -> int
    decreases i,
{
    if i <= 0 {
        0
    } else {
        row_offset(i - 1) + row_height(i - 1)
    }
}

/// The `i`-th rectangle of the outline of a dot whose image has its top-left
/// corner at `(x, y)`: centred in the image, below the rectangles before it.
pub open spec fn collider_at(x: int, y: int, i: int) -> Rect {
    Rect {
        x: (x + (DOT_WIDTH - row_width(i)) / 2) as i32,
        y: (y + row_offset(i)) as i32,
        w: row_width(i) as i32,
        h: row_height(i) as i32,
    }
}

/// The outline of a dot whose image has its top-left corner at `(x, y)`.
pub open spec fn colliders_at(x: int, y: int) -> Seq<Rect> {
    Seq::new(DOT_ROWS as nat, |i: int| collider_at(x, y, i))
}

/// Whether some rectangle of `a` overlaps some rectangle of `b`.
pub open spec fn any_overlap(a: Seq<Rect>, b: Seq<Rect>) -> bool {
    exists|i: int, j: int|
        0 <= i < a.len() && 0 <= j < b.len() && rects_overlap(#[trigger] a[i], #[trigger] b[j])
}

/// The rows of the outline never reach below the image.
pub proof fn lemma_row_offset_bounds(i: int)
    requires
        0 <= i <= DOT_ROWS,
    ensures
        0 <= row_offset(i) <= DOT_HEIGHT,
        i < DOT_ROWS ==> row_offset(i) + row_height(i) <= DOT_HEIGHT,
        row_offset(DOT_ROWS as int) == DOT_HEIGHT,
{
    reveal_with_fuel(row_offset, 12);
}

/// Whether some rectangle of `a` overlaps some rectangle of `b`.
pub fn check_collision(a: &Vec<Rect>, b: &Vec<Rect>) -> (hit: bool)
    ensures
        hit == any_overlap(a@, b@),
{
    let mut a_box: usize = 0;
    while a_box < a.len()
        invariant
            a_box <= a.len(),
            forall|i: int, j: int|
                0 <= i < a_box && 0 <= j < b.len() ==> !rects_overlap(
                    #[trigger] a@[i],
                    #[trigger] b@[j],
                ),
        decreases a.len() - a_box,
    {
        let mut b_box: usize = 0;
        while b_box < b.len()
            invariant
                a_box < a.len(),
                b_box <= b.len(),
                forall|j: int| 0 <= j < b_box ==> !rects_overlap(a@[a_box as int], #[trigger] b@[j]),
            decreases b.len() - b_box,
        {
            if crate::box_collision::check_collision(&a[a_box], &b[b_box]) {
                assert(rects_overlap(a@[a_box as int], b@[b_box as int]));
                return true;
            }
            b_box += 1;
        }
        a_box += 1;
    }
    false
}

/// A dot with a position, a velocity and its outline at that position.
#[derive(Clone, Debug)]
pub struct Dot {
    pub x_pos: i32,
    pub y_pos: i32,
    pub x_vel: i32,
    pub y_vel: i32,
    pub colliders: Vec<Rect>,
}

impl Dot {
    /// The outline has the dot's shape, whatever its place.
    pub open spec fn has_outline(self) -> bool {
        &&& self.colliders@.len() == DOT_ROWS
        &&& forall|i: int|
            0 <= i < DOT_ROWS ==> (#[trigger] self.colliders@[i]).w == row_width(i)
                && self.colliders@[i].h == row_height(i)
    }

    /// The corners of the outline of a dot at `(x, y)` fit in `i32`: the
    /// outline begins up to 7 pixels right of `x` and up to 19 below `y`.
    pub open spec fn in_range(x: int, y: int) -> bool {
        &&& i32::MIN <= x && x + 7 <= i32::MAX
        &&& i32::MIN <= y && y + 19 <= i32::MAX
    }

    /// The outline lies where the dot is.
    pub open spec fn wf(self) -> bool {
        &&& Dot::in_range(self.x_pos as int, self.y_pos as int)
        &&& self.colliders@ == colliders_at(self.x_pos as int, self.y_pos as int)
    }

    /// A dot at rest with the top-left corner of its image at `(x, y)`.
    pub fn new(x: i32, y: i32) -> (dot: Dot)
        requires
            Dot::in_range(x as int, y as int),
        ensures
            dot.wf(),
            dot.x_pos == x,
            dot.y_pos == y,
            dot.x_vel == 0,
            dot.y_vel == 0,
    {
        let mut colliders: Vec<Rect> = Vec::new();
        colliders.push(Rect { x: 0, y: 0, w: 6, h: 1 });
        colliders.push(Rect { x: 0, y: 0, w: 10, h: 1 });
        colliders.push(Rect { x: 0, y: 0, w: 14, h: 1 });
        colliders.push(Rect { x: 0, y: 0, w: 16, h: 2 });
        colliders.push(Rect { x: 0, y: 0, w: 18, h: 2 });
        colliders.push(Rect { x: 0, y: 0, w: 20, h: 6 });
        colliders.push(Rect { x: 0, y: 0, w: 18, h: 2 });
        colliders.push(Rect { x: 0, y: 0, w: 16, h: 2 });
        colliders.push(Rect { x: 0, y: 0, w: 14, h: 1 });
        colliders.push(Rect { x: 0, y: 0, w: 10, h: 1 });
        colliders.push(Rect { x: 0, y: 0, w: 6, h: 1 });

        let mut dot = Dot { x_pos: x, y_pos: y, x_vel: 0, y_vel: 0, colliders };
        dot.shift_colliders();
        dot
    }

    /// Moves the outline to where the dot is.
    pub fn shift_colliders(&mut self)
        requires
            old(self).has_outline(),
            Dot::in_range(old(self).x_pos as int, old(self).y_pos as int),
        ensures
            final(self).wf(),
            final(self).x_pos == old(self).x_pos,
            final(self).y_pos == old(self).y_pos,
            final(self).x_vel == old(self).x_vel,
            final(self).y_vel == old(self).y_vel,
    {
        let ghost x: int = self.x_pos as int;
        let ghost y: int = self.y_pos as int;
        // The row offset
        let mut r: i32 = 0;
        let mut set: usize = 0;
        while set < self.colliders.len()
            invariant
                self.has_outline(),
                self.x_pos == x,
                self.y_pos == y,
                self.x_vel == old(self).x_vel,
                self.y_vel == old(self).y_vel,
                Dot::in_range(x, y),
                set <= DOT_ROWS,
                r == row_offset(set as int),
                forall|i: int| 0 <= i < set ==> #[trigger] self.colliders@[i] == collider_at(x, y, i),
            decreases DOT_ROWS - set,
        {
            proof {
                lemma_row_offset_bounds(set as int);
            }
            let mut c: Rect = self.colliders[set];
            // Center the collision box
            c.x = self.x_pos + (DOT_WIDTH as i32 - c.w) / 2;
            // Set the collision box at its row offset
            c.y = self.y_pos + r;
            // Move the row offset down the height of the collision box
            r = r + c.h;
            self.colliders.set(set, c);
            set += 1;
        }
        assert(self.colliders@ =~= colliders_at(x, y));
    }

    /// The outline.
    pub fn get_colliders(&self) -> (colliders: &Vec<Rect>)
        ensures
            colliders == &self.colliders,
    {
        &self.colliders
    }

    /// Takes a key press or release into the velocity.
    pub fn handle_event(&mut self, event: &Event)
        requires
            can_steer(old(self).x_vel, old(self).y_vel, *event, DOT_VEL),
        ensures
            final(self).x_vel == old(self).x_vel + impulse(*event, DOT_VEL as int).0,
            final(self).y_vel == old(self).y_vel + impulse(*event, DOT_VEL as int).1,
            final(self).x_pos == old(self).x_pos,
            final(self).y_pos == old(self).y_pos,
            final(self).colliders == old(self).colliders,
    {
        let (x_vel, y_vel) = steer(self.x_vel, self.y_vel, event, DOT_VEL);
        self.x_vel = x_vel;
        self.y_vel = y_vel;
    }

    /// Whether a dot with its image at `(x, y)` sticks out of the window to
    /// the left or right, or touches `others`.
    pub open spec fn x_blocked(x: int, y: int, others: Seq<Rect>) -> bool {
        x < 0 || x + DOT_WIDTH > SCREEN_WIDTH || any_overlap(colliders_at(x, y), others)
    }

    /// Whether a dot with its image at `(x, y)` sticks out of the window at
    /// the top or bottom, or touches `others`.
    pub open spec fn y_blocked(x: int, y: int, others: Seq<Rect>) -> bool {
        y < 0 || y + DOT_HEIGHT > SCREEN_HEIGHT || any_overlap(colliders_at(x, y), others)
    }

    /// The x position after one frame: one step on, unless the dot is
    /// blocked there.
    pub open spec fn step_x(self, others: Seq<Rect>) -> int {
        let x = self.x_pos + self.x_vel;
        if Dot::x_blocked(x, self.y_pos as int, others) {
            self.x_pos as int
        } else {
            x
        }
    }

    /// The y position after one frame, the x step taken first.
    pub open spec fn step_y(self, others: Seq<Rect>) -> int {
        let y = self.y_pos + self.y_vel;
        if Dot::y_blocked(self.step_x(others), y, others) {
            self.y_pos as int
        } else {
            y
        }
    }

    /// Moves the dot by its velocity, first along x and then along y, and
    /// takes back each of the two steps that would leave the window or run
    /// into `other_colliders`.
    pub fn move_position(&mut self, other_colliders: &Vec<Rect>)
        requires
            old(self).wf(),
        ensures
            final(self).wf(),
            final(self).x_pos == old(self).step_x(other_colliders@),
            final(self).y_pos == old(self).step_y(other_colliders@),
            final(self).x_vel == old(self).x_vel,
            final(self).y_vel == old(self).y_vel,
    {
        // Move the dot left or right
        let x: i64 = self.x_pos as i64 + self.x_vel as i64;
        if !(x < 0 || x + DOT_WIDTH as i64 > SCREEN_WIDTH as i64) {
            let back: i32 = self.x_pos;
            self.x_pos = x as i32;
            self.shift_colliders();
            if check_collision(&self.colliders, other_colliders) {
                // Move back
                self.x_pos = back;
                self.shift_colliders();
            }
        }
        // Move the dot up or down
        let y: i64 = self.y_pos as i64 + self.y_vel as i64;
        if !(y < 0 || y + DOT_HEIGHT as i64 > SCREEN_HEIGHT as i64) {
            let back: i32 = self.y_pos;
            self.y_pos = y as i32;
            self.shift_colliders();
            if check_collision(&self.colliders, other_colliders) {
                // Move back
                self.y_pos = back;
                self.shift_colliders();
            }
        }
    }

    /// The copy that draws the dot.
    pub fn render(&self, dot_texture: &LTexture) -> (blit: Blit)
        ensures
            blit == dot_texture.render_spec(self.x_pos, self.y_pos, None),
    {
        dot_texture.render(self.x_pos, self.y_pos, None)
    }
}

/// A dot that lies in the window and clear of the other outline does so
/// after a frame too: no step takes it out of the window or into the
/// outline.
pub proof fn lemma_step_stays_clear(dot: Dot, others: Seq<Rect>)
    requires
        !Dot::x_blocked(dot.x_pos as int, dot.y_pos as int, others),
        !Dot::y_blocked(dot.x_pos as int, dot.y_pos as int, others),
    ensures
        !Dot::x_blocked(dot.step_x(others), dot.step_y(others), others),
        !Dot::y_blocked(dot.step_x(others), dot.step_y(others), others),
{
}

/// Whether the pixel `(px, py)` lies in one of the rectangles.
pub open spec fn covers(rects: Seq<Rect>, px: int, py: int) -> bool {
    exists|i: int| 0 <= i < rects.len() && (#[trigger] rects[i]).contains(px, py)
}

/// Whether none of the rectangles is empty.
pub open spec fn none_empty(rects: Seq<Rect>) -> bool {
    forall|i: int| 0 <= i < rects.len() ==> (#[trigger] rects[i]).w > 0 && rects[i].h > 0
}

/// Two outlines without empty rectangles touch exactly when some pixel lies
/// in both.
pub proof fn lemma_any_overlap_iff_common_pixel(a: Seq<Rect>, b: Seq<Rect>)
    requires
        none_empty(a),
        none_empty(b),
    ensures
        any_overlap(a, b) <==> exists|px: int, py: int| #[trigger]
            covers(a, px, py) && covers(b, px, py),
{
    if any_overlap(a, b) {
        let (i, j) = choose|i: int, j: int|
            0 <= i < a.len() && 0 <= j < b.len() && rects_overlap(#[trigger] a[i], #[trigger] b[j]);
        crate::box_collision::lemma_overlap_iff_common_pixel(a[i], b[j]);
        let (px, py) = choose|px: int, py: int| #[trigger]
            a[i].contains(px, py) && b[j].contains(px, py);
        assert(covers(a, px, py) && covers(b, px, py));
    }
    if exists|px: int, py: int| #[trigger] covers(a, px, py) && covers(b, px, py) {
        let (px, py) = choose|px: int, py: int| #[trigger] covers(a, px, py) && covers(b, px, py);
        let i = choose|i: int| 0 <= i < a.len() && (#[trigger] a[i]).contains(px, py);
        let j = choose|j: int| 0 <= j < b.len() && (#[trigger] b[j]).contains(px, py);
        crate::box_collision::lemma_overlap_iff_common_pixel(a[i], b[j]);
        assert(rects_overlap(a[i], b[j]));
    }
}

/// The outline of a dot has no empty rectangle.
pub proof fn lemma_outline_none_empty(x: int, y: int)
    ensures
        none_empty(colliders_at(x, y)),
{
}

/// Whether two outlines touch does not depend on which is named first.
pub proof fn lemma_any_overlap_symmetric(a: Seq<Rect>, b: Seq<Rect>)
    ensures
        any_overlap(a, b) == any_overlap(b, a),
{
    if any_overlap(a, b) {
        let (i, j) = choose|i: int, j: int|
            0 <= i < a.len() && 0 <= j < b.len() && rects_overlap(#[trigger] a[i], #[trigger] b[j]);
        assert(rects_overlap(b[j], a[i]));
    }
    if any_overlap(b, a) {
        let (j, i) = choose|j: int, i: int|
            0 <= j < b.len() && 0 <= i < a.len() && rects_overlap(#[trigger] b[j], #[trigger] a[i]);
        assert(rects_overlap(a[i], b[j]));
    }
}

} // verus!
