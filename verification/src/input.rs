//! What the keyboard reports, and which report ends the show.

use vstd::prelude::*;

verus! {

/// The key that ends the show.
pub const QUIT_KEY: char = 'q';

/// Which key an event is about.
#[derive(Clone, Copy, Debug, PartialEq, Eq, Structural)]
pub enum Key {
    /// A key that types a character.
    Char(char),
    /// Any other key.
    Other,
}

/// What happened to the key.
#[derive(Clone, Copy, Debug, PartialEq, Eq, Structural)]
pub enum KeyKind {
    /// It went down.
    Press,
    /// It is held down and repeats.
    Repeat,
    /// It came up.
    Release,
}

/// What a look at the terminal's pending events found.
#[derive(Clone, Copy, Debug, PartialEq, Eq, Structural)]
pub enum Polled {
    /// No event was waiting.
    Nothing,
    /// A key event was waiting.
    Key { key: Key, kind: KeyKind },
    /// Some other event was waiting: the mouse, a resize, a paste.
    Other,
}

/// Whether `polled` asks for the show to end: only the quit key going down
/// does. The key repeating or coming up does not, nor does its capital.
pub open spec fn is_quit(polled: Polled) -> bool {
    polled == (Polled::Key { key: Key::Char(QUIT_KEY), kind: KeyKind::Press })
}

/// Tells whether `polled` asks for the show to end.
pub fn quits(polled: Polled) -> (quit: bool)
    ensures
        quit == is_quit(polled),
{
    match polled {
        Polled::Key { key: Key::Char(c), kind: KeyKind::Press } => c == QUIT_KEY,
        _ => false,
    }
}

} // verus!
