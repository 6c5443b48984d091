//! Keyboard shortcuts of the launcher.

use vstd::prelude::*;
use crate::launcher::Message;

verus! {

/// A key, as far as the launcher tells keys apart.
#[derive(Debug, Clone, Copy, PartialEq, Eq, Structural)]
pub enum Key {
    /// A digit key of the main block.
    Digit(u8),
    /// A digit key of the numeric keypad.
    Numpad(u8),
    Escape,
    Other,
}

/// A key going down or up, with whether Control was held.
#[derive(Debug, Clone, Copy, PartialEq, Eq, Structural)]
pub enum KeyEvent {
    Pressed { key: Key, ctrl: bool },
    Released { key: Key, ctrl: bool },
}

/// The message a key event stands for: releasing Escape hides the
/// launcher; Control with a digit `d` (main block or keypad) activates row
/// `d`; every other key event stands for nothing.
pub open spec fn key_message_spec(ev: KeyEvent) -> Option<Message> {
    match ev {
        KeyEvent::Released { key: Key::Escape, .. } => Some(Message::Hide),
        KeyEvent::Pressed { key: Key::Digit(d), ctrl: true } if d <= 9 => Some(Message::Activate(Some(d as usize))),
        KeyEvent::Pressed { key: Key::Numpad(d), ctrl: true } if d <= 9 => Some(Message::Activate(Some(d as usize))),
        _ => None,
    }
}

/// The message a key event stands for, if any.
pub fn key_message(ev: KeyEvent) -> (r: Option<Message>)
    ensures
        r == key_message_spec(ev),
{
    match ev {
        KeyEvent::Released { key: Key::Escape, .. } => Some(Message::Hide),
        KeyEvent::Pressed { key: Key::Digit(d), ctrl: true } if d <= 9 => Some(Message::Activate(Some(d as usize))),
        KeyEvent::Pressed { key: Key::Numpad(d), ctrl: true } if d <= 9 => Some(Message::Activate(Some(d as usize))),
        _ => None,
    }
}

} // verus!
