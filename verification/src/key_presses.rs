//! Which image a key press asks for.

use vstd::prelude::*;
use crate::event::{Event, Key};

verus! {

/// What an event asks for: one of the images, the end of the program, or
/// nothing.
#[derive(Clone, Copy, Debug, PartialEq, Eq, Hash, Structural)]
pub enum KeyPress {
    Up,
    Down,
    Left,
    Right,
    Press,
    Quit,
    Invalid,
}

/// What `event` asks for.
///
/// Closing the window, `Escape`, `Q` and a key without a code end the
/// program; an arrow key asks for its image; the rest asks for nothing.
pub open spec fn key_press_spec(event: Event) -> KeyPress {
    match event {
        Event::Quit => KeyPress::Quit,
        Event::KeyDown { key, .. } => match key {
            Some(Key::Escape) | Some(Key::Q) | None => KeyPress::Quit,
            Some(Key::Up) => KeyPress::Up,
            Some(Key::Down) => KeyPress::Down,
            Some(Key::Left) => KeyPress::Left,
            Some(Key::Right) => KeyPress::Right,
            _ => KeyPress::Invalid,
        },
        _ => KeyPress::Invalid,
    }
}

/// What `event` asks for.
pub fn key_press(event: &Event) -> (key: KeyPress)
    ensures
        key == key_press_spec(*event),
{
    match event {
        Event::Quit => KeyPress::Quit,
        Event::KeyDown { key, .. } => match key {
            Some(Key::Escape) | Some(Key::Q) | None => KeyPress::Quit,
            Some(Key::Up) => KeyPress::Up,
            Some(Key::Down) => KeyPress::Down,
            Some(Key::Left) => KeyPress::Left,
            Some(Key::Right) => KeyPress::Right,
            _ => KeyPress::Invalid,
        },
        _ => KeyPress::Invalid,
    }
}

} // verus!
