//! The fixed table from raw key presses to semantic events.
//!
//! The input thread reads raw terminal events, reduces each key press to the
//! plain values below, and forwards exactly the events this table yields.
//! Releases and repeats are dropped so that one physical press never causes
//! two transitions; unrecognized keys are silently ignored.

use vstd::prelude::*;

use crate::event::UiEvent;

verus! {

/// What happened to a key, as reported by the terminal.
#[derive(Clone, Copy, Debug, PartialEq, Eq, Structural)]
pub enum KeyAction {
    Press,
    Release,
    Repeat,
}

/// A key, reduced to what the table distinguishes.
#[derive(Clone, Copy, Debug, PartialEq, Eq, Structural)]
pub enum Key {
    Char(char),
    Up,
    Down,
    Left,
    Right,
    Enter,
    Esc,
    Home,
    End,
    /// Any key the table does not know.
    Other,
}

/// The key table: which event one key stroke maps to, if any.  Only presses
/// count; `q`/escape quit, vi-style `hjkl` and the arrow keys move and act,
/// `g`/`G` and home/end jump, enter activates.
pub open spec fn key_event(action: KeyAction, key: Key) -> Option<UiEvent> {
    if action != KeyAction::Press {
        None
    } else {
        match key {
            Key::Char('q') | Key::Esc => Some(UiEvent::Quit),
            Key::Char('h') | Key::Left => Some(UiEvent::Unselect),
            Key::Char('j') | Key::Down => Some(UiEvent::MoveDown),
            Key::Char('k') | Key::Up => Some(UiEvent::MoveUp),
            Key::Char('g') | Key::Home => Some(UiEvent::JumpFirst),
            Key::Char('G') | Key::End => Some(UiEvent::JumpLast),
            Key::Char('l') | Key::Right | Key::Enter => Some(UiEvent::ActivateOrToggle),
            _ => None,
        }
    }
}

/// Translates one key stroke into the event to forward, exactly as the key
/// table says: `None` is dropped, never sent.
pub fn map_key(action: KeyAction, key: Key) -> (r: Option<UiEvent>)
    ensures
        r == key_event(action, key),
{
    match action {
        KeyAction::Press => match key {
            Key::Char('q') | Key::Esc => Some(UiEvent::Quit),
            Key::Char('h') | Key::Left => Some(UiEvent::Unselect),
            Key::Char('j') | Key::Down => Some(UiEvent::MoveDown),
            Key::Char('k') | Key::Up => Some(UiEvent::MoveUp),
            Key::Char('g') | Key::Home => Some(UiEvent::JumpFirst),
            Key::Char('G') | Key::End => Some(UiEvent::JumpLast),
            Key::Char('l') | Key::Right | Key::Enter => Some(UiEvent::ActivateOrToggle),
            _ => None,
        },
        _ => None,
    }
}

} // verus!
