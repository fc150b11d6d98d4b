//! Which image to show while arrow keys are held.

use vstd::prelude::*;

verus! {

/// The images.
#[derive(Clone, Copy, Debug, PartialEq, Eq, Hash, Structural)]
pub enum Image {
    Press,
    Up,
    Down,
    Left,
    Right,
}

/// Which arrow keys are held.
#[derive(Clone, Copy, Debug, PartialEq, Eq, Structural)]
pub struct ArrowKeys {
    pub up: bool,
    pub down: bool,
    pub left: bool,
    pub right: bool,
}

/// The image to show: that of a held arrow key, left before right before
/// down before up, and the one shown before where none is held.
pub open spec fn current_image_spec(shown: Image, keys: ArrowKeys) -> Image {
    if keys.left {
        Image::Left
    } else if keys.right {
        Image::Right
    } else if keys.down {
        Image::Down
    } else if keys.up {
        Image::Up
    } else {
        shown
    }
}

/// The image to show while `keys` are held, `shown` being on the screen.
pub fn current_image(shown: Image, keys: &ArrowKeys) -> (image: Image)
    ensures
        image == current_image_spec(shown, *keys),
{
    let mut current_image: Image = shown;
    if keys.up {
        current_image = Image::Up;
    }
    if keys.down {
        current_image = Image::Down;
    }
    if keys.right {
        current_image = Image::Right;
    }
    if keys.left {
        current_image = Image::Left;
    }
    current_image
}

} // verus!
