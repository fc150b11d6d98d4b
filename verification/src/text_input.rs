//! A line of text that is typed, erased, copied and pasted.

use vstd::prelude::*;
use vstd::string::StringExecFns;
use crate::event::{Event, Key};

verus! {

/// What an event asks of the clipboard.
#[derive(Clone, Copy, Debug, PartialEq, Eq, Structural)]
pub enum ClipboardAction {
    /// Nothing.
    Nothing,
    /// Put the text on the clipboard.
    Copy,
    /// Replace the text by what the clipboard holds, if it can be read.
    Paste,
}

/// What an event did to the text, and asks of the clipboard.
#[derive(Clone, Copy, Debug, PartialEq, Eq, Structural)]
pub struct Edit {
    /// Whether the text changed, so that it has to be drawn anew.
    pub rendered_text: bool,
    /// What to do with the clipboard.
    pub clipboard: ClipboardAction,
}

/// The text after `event`: backspace takes the last character from a text
/// that has one, typed text is added at the end.
pub open spec fn text_after(text: Seq<char>, event: Event) -> Seq<char> {
    match event {
        Event::KeyDown { key: Some(Key::Backspace), .. } => if text.len() > 0 {
            text.drop_last()
        } else {
            text
        },
        Event::TextInput { text: typed } => text + typed@,
        _ => text,
    }
}

/// What `event` did to `text` and asks of the clipboard: `C` and `V`, held
/// with the left control key alone, copy and paste.
pub open spec fn edit_for(text: Seq<char>, event: Event) -> Edit {
    match event {
        Event::KeyDown { key: Some(Key::Backspace), .. } => Edit {
            rendered_text: text.len() > 0,
            clipboard: ClipboardAction::Nothing,
        },
        Event::KeyDown { key: Some(Key::C), left_ctrl_only: true, .. } => Edit {
            rendered_text: false,
            clipboard: ClipboardAction::Copy,
        },
        Event::KeyDown { key: Some(Key::V), left_ctrl_only: true, .. } => Edit {
            rendered_text: false,
            clipboard: ClipboardAction::Paste,
        },
        Event::TextInput { .. } => Edit { rendered_text: true, clipboard: ClipboardAction::Nothing },
        _ => Edit { rendered_text: false, clipboard: ClipboardAction::Nothing },
    }
}

/// Takes the last character from a string. Trusted: this is
/// `String::pop` of the standard library, which removes the last
/// character and returns it, and returns `None`, leaving the string as it
/// is, where the string is empty.
#[verifier::external_body]
fn pop_char(text: &mut String) -> (last: Option<char>)
    ensures
        old(text)@.len() > 0 ==> last == Some(old(text)@.last()) && final(text)@ == old(
            text,
        )@.drop_last(),
        old(text)@.len() == 0 ==> last.is_none() && final(text)@ == old(text)@,
{
    text.pop()
}

/// Takes `event` into the text, and says whether the text changed and what
/// the event asks of the clipboard.
pub fn handle_event(input_text: &mut String, event: &Event) -> (edit: Edit)
    ensures
        final(input_text)@ == text_after(old(input_text)@, *event),
        edit == edit_for(old(input_text)@, *event),
{
    let mut edit = Edit { rendered_text: false, clipboard: ClipboardAction::Nothing };
    match event {
        Event::KeyDown { key, left_ctrl_only, .. } => {
            match key {
                Some(Key::Backspace) => {
                    if !input_text.as_str().is_empty() {
                        let _ = pop_char(input_text);
                        edit.rendered_text = true;
                    }
                },
                Some(Key::C) => {
                    if *left_ctrl_only {
                        edit.clipboard = ClipboardAction::Copy;
                    }
                },
                Some(Key::V) => {
                    if *left_ctrl_only {
                        edit.clipboard = ClipboardAction::Paste;
                    }
                },
                _ => {},
            }
        },
        Event::TextInput { text } => {
            input_text.append(text.as_str());
            edit.rendered_text = true;
        },
        _ => {},
    }
    edit
}

/// The text as it is drawn: an empty text is drawn as one space.
pub open spec fn drawn_text(text: Seq<char>) -> Seq<char> {
    if text.len() == 0 {
        " "@
    } else {
        text
    }
}

/// Makes the text fit to be drawn: an empty text becomes one space.
pub fn prepare_for_render(input_text: &mut String)
    ensures
        final(input_text)@ == drawn_text(old(input_text)@),
{
    if input_text.as_str().is_empty() {
        *input_text = String::from_str(" ");
    }
}

/// Backspace takes back what typing one character added.
pub proof fn lemma_backspace_undoes_typing(text: Seq<char>, typed: String, left_ctrl_only: bool)
    requires
        typed@.len() == 1,
    ensures
        text_after(
            text_after(text, Event::TextInput { text: typed }),
            Event::KeyDown { key: Some(Key::Backspace), repeat: false, left_ctrl_only },
        ) == text,
{
    assert((text + typed@).drop_last() =~= text);
}

/// What is drawn is never empty.
pub proof fn lemma_drawn_text_not_empty(text: Seq<char>)
    ensures
        drawn_text(text).len() > 0,
{
    reveal_strlit(" ");
}

} // verus!
