//! Game logic for small 2D scenes: rectangles and circles, collision tests,
//! a stopwatch, moving dots, buttons, a scrolling camera and the decisions
//! that an event loop takes from key presses.
//!
//! Nothing here draws, reads the clock or polls for input. The caller hands
//! in plain values (an event, a tick count, a mouse position) and gets plain
//! values back (the next state, a rectangle to draw into).

// What the scenes share.
pub mod event;
pub mod layout;
pub mod rect;
pub mod screen;
pub mod steering;
pub mod texture;

// Pictures and sprites.
pub mod animated_sprites;
pub mod color_modulation;
pub mod geometry_rendering;
pub mod rotation_and_flipping;
pub mod sprite_sheet;
pub mod viewport;

// Keyboard, mouse, text and sound.
pub mod key_presses;
pub mod key_states;
pub mod mouse_events;
pub mod sound_effects;
pub mod text_input;

// Time.
pub mod advanced_timer;
pub mod capping_frame_rate;
pub mod timer;

// Dots that move, and what stops them.
pub mod box_collision;
pub mod circular_collision;
pub mod motion;
pub mod per_pixel_collision;
pub mod scrolling;
