use vstd::prelude::*;

verus! {

/// Semantic key codes: the plain values that stand for the terminal's key
/// events. The outer shell translates raw terminal input into these before
/// the component tree sees it.
#[derive(Clone, Copy, PartialEq, Eq, Structural, Debug)]
pub enum Key {
    Up,
    Down,
    Enter,
    Esc,
    Char(char),
}

/// An input event routed through the component tree. Anything that is not a
/// key press (resize, mouse, paste) is `Other`: no component here consumes it.
#[derive(Clone, Copy, PartialEq, Eq, Structural, Debug)]
pub enum Event {
    Key(Key),
    Other,
}

/// The key bindings the components consult: a plain-value stand-in for the
/// configurable key table owned by the outer shell.
#[derive(Clone, Copy, PartialEq, Eq, Structural, Debug)]
pub struct KeyConfig {
    pub move_up: Key,
    pub move_down: Key,
    pub enter: Key,
    pub exit_popup: Key,
}

impl KeyConfig {
    /// The conventional bindings: arrows to move, enter to act, escape to
    /// leave a popup.
    pub fn standard() -> (r: KeyConfig)
        ensures
            r == (KeyConfig {
                move_up: Key::Up,
                move_down: Key::Down,
                enter: Key::Enter,
                exit_popup: Key::Esc,
            }),
    {
        KeyConfig { move_up: Key::Up, move_down: Key::Down, enter: Key::Enter, exit_popup: Key::Esc }
    }
}

/// The key-matcher: a pressed key answers to a binding exactly when its code
/// equals the bound code.
pub fn key_match(k: Key, binding: Key) -> (r: bool)
    ensures
        r == (k == binding),
{
    k == binding
}

} // verus!
