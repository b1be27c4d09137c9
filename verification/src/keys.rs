//! What a key press means.

use vstd::prelude::*;
use crate::types::Message;

verus! {

/// A key, as far as the shortcuts tell keys apart.
#[derive(Debug, Clone, Copy, PartialEq, Eq, Structural)]
pub enum Key {
    ArrowDown,
    ArrowUp,
    Enter,
    Escape,
    Character(char),
    Other,
}

/// What the user asks for with a key.
#[derive(Debug, Clone, Copy, PartialEq, Eq, Structural)]
pub enum KeyIntent {
    SelectionDown,
    SelectionUp,
    ActivateSelection,
    ToggleThreadCollapse,
    SearchActivate,
    SearchClear,
    ComposeNew,
    ComposeReply,
    ComposeForward,
}

/// The meaning of a key press that no widget has taken.
///
/// While the search field has the focus only Escape means anything, so that
/// every other key reaches the field. Otherwise the arrows and `j`/`k` move
/// the selection, Enter opens it, the space bar folds its thread, `/` starts
/// a search, Escape ends one, and `c`, `r`, `f` start a new message, a reply
/// and a forward. A letter or `/` together with Control is no shortcut; the
/// space bar is one either way.
pub open spec fn meaning(key: Key, control: bool, search_focused: bool) -> Option<KeyIntent> {
    if search_focused {
        if key == Key::Escape {
            Some(KeyIntent::SearchClear)
        } else {
            None
        }
    } else {
        match key {
            Key::ArrowDown => Some(KeyIntent::SelectionDown),
            Key::ArrowUp => Some(KeyIntent::SelectionUp),
            Key::Enter => Some(KeyIntent::ActivateSelection),
            Key::Escape => Some(KeyIntent::SearchClear),
            Key::Character(c) => if c == ' ' {
                Some(KeyIntent::ToggleThreadCollapse)
            } else if control {
                None
            } else if c == '/' {
                Some(KeyIntent::SearchActivate)
            } else if c == 'j' {
                Some(KeyIntent::SelectionDown)
            } else if c == 'k' {
                Some(KeyIntent::SelectionUp)
            } else if c == 'c' {
                Some(KeyIntent::ComposeNew)
            } else if c == 'r' {
                Some(KeyIntent::ComposeReply)
            } else if c == 'f' {
                Some(KeyIntent::ComposeForward)
            } else {
                None
            },
            Key::Other => None,
        }
    }
}

/// The event that an intent is for the model, if the model knows the intent:
/// searching and composing happen outside it.
pub open spec fn event_of(intent: KeyIntent) -> Option<Message> {
    match intent {
        KeyIntent::SelectionDown => Some(Message::SelectionDown),
        KeyIntent::SelectionUp => Some(Message::SelectionUp),
        KeyIntent::ActivateSelection => Some(Message::ActivateSelection),
        KeyIntent::ToggleThreadCollapse => Some(Message::ToggleThreadCollapse),
        _ => None,
    }
}

/// Reads a key press.
pub fn key_intent(key: Key, control: bool, search_focused: bool) -> (r: Option<KeyIntent>)
    ensures
        r == meaning(key, control, search_focused),
{
    if search_focused {
        return match key {
            Key::Escape => Some(KeyIntent::SearchClear),
            _ => None,
        };
    }
    match key {
        Key::ArrowDown => Some(KeyIntent::SelectionDown),
        Key::ArrowUp => Some(KeyIntent::SelectionUp),
        Key::Enter => Some(KeyIntent::ActivateSelection),
        Key::Escape => Some(KeyIntent::SearchClear),
        Key::Character(c) => {
            if c == ' ' {
                Some(KeyIntent::ToggleThreadCollapse)
            } else if control {
                None
            } else if c == '/' {
                Some(KeyIntent::SearchActivate)
            } else if c == 'j' {
                Some(KeyIntent::SelectionDown)
            } else if c == 'k' {
                Some(KeyIntent::SelectionUp)
            } else if c == 'c' {
                Some(KeyIntent::ComposeNew)
            } else if c == 'r' {
                Some(KeyIntent::ComposeReply)
            } else if c == 'f' {
                Some(KeyIntent::ComposeForward)
            } else {
                None
            }
        },
        Key::Other => None,
    }
}

impl KeyIntent {
    /// The event for the model, if the intent is one of the model's.
    pub fn message(&self) -> (r: Option<Message>)
        ensures
            r == event_of(*self),
    {
        match self {
            KeyIntent::SelectionDown => Some(Message::SelectionDown),
            KeyIntent::SelectionUp => Some(Message::SelectionUp),
            KeyIntent::ActivateSelection => Some(Message::ActivateSelection),
            KeyIntent::ToggleThreadCollapse => Some(Message::ToggleThreadCollapse),
            _ => None,
        }
    }
}

} // verus!
