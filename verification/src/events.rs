//! The event vocabulary that both prompt state machines consume.
//!
//! The embedding program decodes whatever its terminal backend delivers into
//! these plain values before handing them to the widgets, so the widgets only
//! ever see uniform "key pressed" semantics.

use vstd::prelude::*;

verus! {

/// The identity of a pressed key, as far as the prompts care.
///
/// Keys the prompts ignore are collapsed into [`Key::Other`].
#[derive(Clone, Copy, Debug, PartialEq, Eq)]
pub enum Key {
    Enter,
    Esc,
    Left,
    Right,
    Up,
    Down,
    Backspace,
    Delete,
    Char(char),
    Other,
}

/// One decoded event from the terminal input stream.
///
/// A key press carries the key identity and whether the control modifier was
/// held. Resize and focus notifications carry nothing the state machines
/// read. Anything the embedding program cannot decode — including a closed
/// or failing stream — must be delivered as [`TermEvent::Other`].
#[derive(Clone, Copy, Debug, PartialEq, Eq)]
pub enum TermEvent {
    Key { key: Key, ctrl: bool },
    Resize,
    Focus,
    Other,
}

} // verus!
