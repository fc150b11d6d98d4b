//! How the arrow keys steer a dot: a press adds to its velocity, the release
//! takes the same amount away again.

use vstd::prelude::*;
use crate::event::{Event, Key};

verus! {

/// What `event` adds to a velocity `(x, y)`, for a dot that moves `speed`
/// pixels per frame.
///
/// A first press of an arrow key pushes the dot that way (up is negative y),
/// its release pushes back by as much. Repeats of a held key, other keys and
/// other events add nothing.
pub open spec fn impulse(event: Event, speed: int) -> (int, int) {
    match event {
        Event::KeyDown { key, repeat, .. } => if repeat {
            (0, 0)
        } else {
            match key {
                Some(Key::Up) => (0, -speed),
                Some(Key::Down) => (0, speed),
                Some(Key::Left) => (-speed, 0),
                Some(Key::Right) => (speed, 0),
                _ => (0, 0),
            }
        },
        Event::KeyUp { key, repeat } => if repeat {
            (0, 0)
        } else {
            match key {
                Some(Key::Up) => (0, speed),
                Some(Key::Down) => (0, -speed),
                Some(Key::Left) => (speed, 0),
                Some(Key::Right) => (-speed, 0),
                _ => (0, 0),
            }
        },
        _ => (0, 0),
    }
}

/// Whether the velocity `(x_vel, y_vel)` still fits in `i32` after `event`.
pub open spec fn can_steer(x_vel: i32, y_vel: i32, event: Event, speed: i32) -> bool {
    &&& i32::MIN <= x_vel + impulse(event, speed as int).0 <= i32::MAX
    &&& i32::MIN <= y_vel + impulse(event, speed as int).1 <= i32::MAX
}

/// What `event` adds to a velocity, worked out in 64 bits.
fn impulse_of(event: &Event, speed: i32) -> (r: (i64, i64))
    ensures
        r.0 == impulse(*event, speed as int).0,
        r.1 == impulse(*event, speed as int).1,
{
    let speed: i64 = speed as i64;
    match event {
        // If a key was pressed
        Event::KeyDown { key, repeat, .. } => {
            if !*repeat {
                match key {
                    Some(Key::Up) => (0, -speed),
                    Some(Key::Down) => (0, speed),
                    Some(Key::Left) => (-speed, 0),
                    Some(Key::Right) => (speed, 0),
                    _ => (0, 0),
                }
            } else {
                (0, 0)
            }
        },
        // If a key was released
        Event::KeyUp { key, repeat } => {
            if !*repeat {
                match key {
                    Some(Key::Up) => (0, speed),
                    Some(Key::Down) => (0, -speed),
                    Some(Key::Left) => (speed, 0),
                    Some(Key::Right) => (-speed, 0),
                    _ => (0, 0),
                }
            } else {
                (0, 0)
            }
        },
        _ => (0, 0),
    }
}

/// Whether the velocity `(x_vel, y_vel)` still fits in `i32` after `event`.
pub fn steerable(x_vel: i32, y_vel: i32, event: &Event, speed: i32) -> (ok: bool)
    ensures
        ok == can_steer(x_vel, y_vel, *event, speed),
{
    let (x, y) = impulse_of(event, speed);
    let x: i64 = x_vel as i64 + x;
    let y: i64 = y_vel as i64 + y;
    i32::MIN as i64 <= x && x <= i32::MAX as i64 && i32::MIN as i64 <= y && y <= i32::MAX as i64
}

/// The velocity after `event`.
pub fn steer(x_vel: i32, y_vel: i32, event: &Event, speed: i32) -> (r: (i32, i32))
    requires
        can_steer(x_vel, y_vel, *event, speed),
    ensures
        r.0 == x_vel + impulse(*event, speed as int).0,
        r.1 == y_vel + impulse(*event, speed as int).1,
{
    let (x, y) = impulse_of(event, speed);
    ((x_vel as i64 + x) as i32, (y_vel as i64 + y) as i32)
}

/// Pressing a key and letting it go leaves the velocity as it was.
pub proof fn lemma_release_undoes_press(key: Option<Key>, left_ctrl_only: bool, speed: int)
    ensures
        ({
            let down = impulse(Event::KeyDown { key, repeat: false, left_ctrl_only }, speed);
            let up = impulse(Event::KeyUp { key, repeat: false }, speed);
            down.0 + up.0 == 0 && down.1 + up.1 == 0
        }),
{
}

} // verus!
