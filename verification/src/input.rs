//! Input events and the rule that tells a request to quit from any other
//! event.
//!
//! The caller polls its terminal and describes what arrived with the plain
//! types of this module; the decision is taken here.

use vstd::prelude::*;

verus! {

/// The character that quits when pressed with no modifier held.
pub const QUIT_CHAR: char = 'q';

/// The character that quits when pressed with the control key alone.
pub const INTERRUPT_CHAR: char = 'c';

/// The key of a key event.
#[derive(Clone, Copy, Debug, PartialEq, Eq)]
pub enum KeyCode {
    /// A key that produces a character.
    Char(char),
    /// Any other key: arrows, function keys, enter and the like.
    Other,
}

/// What happened to the key.
#[derive(Clone, Copy, Debug, PartialEq, Eq)]
pub enum KeyKind {
    Press,
    Repeat,
    Release,
}

/// The modifier keys held during a key event.
#[derive(Clone, Copy, Debug, PartialEq, Eq)]
pub struct Modifiers {
    pub shift: bool,
    pub control: bool,
    pub alt: bool,
    pub logo: bool,
    pub hyper: bool,
    pub meta: bool,
}

impl Modifiers {
    /// True when no modifier is held.
    pub open spec fn is_none(self) -> bool {
        !self.shift && !self.control && !self.alt && !self.logo && !self.hyper && !self.meta
    }

    /// True when the control key is held and no other modifier.
    pub open spec fn is_control_only(self) -> bool {
        !self.shift && self.control && !self.alt && !self.logo && !self.hyper && !self.meta
    }

    /// No modifier held.
    pub fn none() -> (modifiers: Modifiers)
        ensures
            modifiers.is_none(),
    {
        Modifiers {
            shift: false,
            control: false,
            alt: false,
            logo: false,
            hyper: false,
            meta: false,
        }
    }

    /// Exactly the control key held.
    pub fn control() -> (modifiers: Modifiers)
        ensures
            modifiers.is_control_only(),
    {
        Modifiers {
            shift: false,
            control: true,
            alt: false,
            logo: false,
            hyper: false,
            meta: false,
        }
    }

    /// Exactly the shift key held.
    pub fn shift() -> (modifiers: Modifiers)
        ensures
            modifiers == (Modifiers {
                shift: true,
                control: false,
                alt: false,
                logo: false,
                hyper: false,
                meta: false,
            }),
    {
        Modifiers {
            shift: true,
            control: false,
            alt: false,
            logo: false,
            hyper: false,
            meta: false,
        }
    }
}

/// A key event.
#[derive(Clone, Copy, Debug, PartialEq, Eq)]
pub struct KeyEvent {
    pub code: KeyCode,
    pub kind: KeyKind,
    pub modifiers: Modifiers,
}

/// An event read from the terminal.
#[derive(Clone, Copy, Debug, PartialEq, Eq)]
pub enum InputEvent {
    /// A key was pressed, repeated or released.
    Key(KeyEvent),
    /// The terminal was resized to the given columns and rows.
    Resize(u16, u16),
    /// Anything else: focus changes, mouse events, pasted text.
    Other,
}

/// Whether a key event asks to quit: a press of `q` with no modifier, or a
/// press of `c` with the control key alone.
pub open spec fn key_quits(key: KeyEvent) -> bool {
    &&& key.kind == KeyKind::Press
    &&& key.code matches KeyCode::Char(c)
    &&& (c == QUIT_CHAR && key.modifiers.is_none()) || (c == INTERRUPT_CHAR
        && key.modifiers.is_control_only())
}

/// Whether an event asks to quit. Only key events can.
pub open spec fn event_quits(event: InputEvent) -> bool {
    event matches InputEvent::Key(key) && key_quits(key)
}

/// Whether the outcome of one poll asks to quit. A poll that timed out
/// without an event does not.
pub open spec fn poll_quits(polled: Option<InputEvent>) -> bool {
    polled matches Some(event) && event_quits(event)
}

impl InputEvent {
    /// Decides whether this event asks to quit.
    pub fn is_quit(&self) -> (quit: bool)
        ensures
            quit == event_quits(*self),
    {
        match self {
            InputEvent::Key(key) => {
                let pressed = match key.kind {
                    KeyKind::Press => true,
                    _ => false,
                };
                let m = key.modifiers;
                let plain = !m.shift && !m.control && !m.alt && !m.logo && !m.hyper && !m.meta;
                let control_only = !m.shift && m.control && !m.alt && !m.logo && !m.hyper
                    && !m.meta;
                match key.code {
                    KeyCode::Char(c) => pressed && ((c == QUIT_CHAR && plain) || (c
                        == INTERRUPT_CHAR && control_only)),
                    KeyCode::Other => false,
                }
            },
            _ => false,
        }
    }
}

/// Decides whether a run ends after one poll of the terminal: `polled` is
/// the event that arrived before the timeout, or `None` if none did.
pub fn poll_quit(polled: Option<InputEvent>) -> (quit: bool)
    ensures
        quit == poll_quits(polled),
{
    match polled {
        Some(event) => event.is_quit(),
        None => false,
    }
}

} // verus!
