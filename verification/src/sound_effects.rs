//! What the number keys do to the sound effects and the music.

use vstd::prelude::*;
use crate::event::{Event, Key};

verus! {

/// The sound effects.
#[derive(Clone, Copy, Debug, PartialEq, Eq, Structural)]
pub enum Effect {
    High,
    Medium,
    Low,
    Scratch,
}

/// What an event asks of the sound.
#[derive(Clone, Copy, Debug, PartialEq, Eq, Structural)]
pub enum SoundAction {
    /// End the program.
    Quit,
    /// Play a sound effect once.
    Play(Effect),
    /// Start the music, or pause or resume it.
    ToggleMusic,
    /// Stop the music.
    HaltMusic,
    /// Nothing.
    Nothing,
}

/// What to do with the music when it is toggled.
#[derive(Clone, Copy, Debug, PartialEq, Eq, Structural)]
pub enum MusicAction {
    Play,
    Resume,
    Pause,
}

/// What `event` asks of the sound: `1` to `4` play an effect, `9` toggles
/// the music, `0` stops it, `Escape` ends the program.
pub open spec fn sound_action_spec(event: Event) -> SoundAction {
    match event {
        Event::KeyDown { key: Some(key), .. } => match key {
            Key::Escape => SoundAction::Quit,
            Key::Num1 => SoundAction::Play(Effect::High),
            Key::Num2 => SoundAction::Play(Effect::Medium),
            Key::Num3 => SoundAction::Play(Effect::Low),
            Key::Num4 => SoundAction::Play(Effect::Scratch),
            Key::Num9 => SoundAction::ToggleMusic,
            Key::Num0 => SoundAction::HaltMusic,
            _ => SoundAction::Nothing,
        },
        _ => SoundAction::Nothing,
    }
}

/// What `event` asks of the sound.
pub fn sound_action(event: &Event) -> (action: SoundAction)
    ensures
        action == sound_action_spec(*event),
{
    match event {
        Event::KeyDown { key: Some(key), .. } => match key {
            Key::Escape => SoundAction::Quit,
            Key::Num1 => SoundAction::Play(Effect::High),
            Key::Num2 => SoundAction::Play(Effect::Medium),
            Key::Num3 => SoundAction::Play(Effect::Low),
            Key::Num4 => SoundAction::Play(Effect::Scratch),
            Key::Num9 => SoundAction::ToggleMusic,
            Key::Num0 => SoundAction::HaltMusic,
            _ => SoundAction::Nothing,
        },
        _ => SoundAction::Nothing,
    }
}

impl SoundAction {
    /// Whether the events that wait behind this one are left for the next
    /// frame: so it is after a sound effect and after stopping the music.
    pub fn ends_polling(self) -> (ends: bool)
        ensures
            ends == (self is Play || self is HaltMusic),
    {
        match self {
            SoundAction::Play(_) => true,
            SoundAction::HaltMusic => true,
            _ => false,
        }
    }
}

/// What toggling does to the music: music that does not play is started,
/// paused music is resumed, and music that plays is paused.
pub fn toggle_music(playing: bool, paused: bool) -> (action: MusicAction)
    ensures
        action == if !playing {
            MusicAction::Play
        } else if paused {
            MusicAction::Resume
        } else {
            MusicAction::Pause
        },
{
    if !playing {
        MusicAction::Play
    } else {
        if paused {
            MusicAction::Resume
        } else {
            MusicAction::Pause
        }
    }
}

} // verus!
