//! What the scenes read of the input: key presses, typed text and the mouse.

use vstd::prelude::*;

verus! {

/// The keys that some scene reacts to. Every other key is `Other`.
#[derive(Clone, Copy, Debug, PartialEq, Eq, Structural)]
pub enum Key {
    Up,
    Down,
    Left,
    Right,
    Escape,
    Return,
    Backspace,
    A,
    C,
    D,
    E,
    P,
    Q,
    S,
    V,
    W,
    Num0,
    Num1,
    Num2,
    Num3,
    Num4,
    Num9,
    Other,
}

/// One input event.
#[derive(Clone, Debug)]
pub enum Event {
    /// The window was asked to close.
    Quit,
    /// A key went down. `key` is `None` where the key has no code; `repeat`
    /// is set on the repeats that a held key sends; `left_ctrl_only` says
    /// that the left control key, and no other modifier, was held.
    KeyDown { key: Option<Key>, repeat: bool, left_ctrl_only: bool },
    /// A key came up.
    KeyUp { key: Option<Key>, repeat: bool },
    /// Text was typed.
    TextInput { text: String },
    /// Anything else.
    Other,
}

/// Where the mouse is, and whether its left button is held.
#[derive(Clone, Copy, Debug, PartialEq, Eq, Structural)]
pub struct MouseState {
    pub x: i32,
    pub y: i32,
    pub left: bool,
}

} // verus!
