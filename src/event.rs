use vstd::prelude::*;

verus! {

/// The key of a key press.
#[derive(Clone, Copy, Debug, PartialEq, Eq, Structural)]
pub enum Key {
    Up,
    Down,
    Left,
    Right,
    Enter,
    Char(char),
    Other,
}

/// An input event as the views see it: a key press, or anything else the
/// terminal reports (a key release, a resize, the mouse).
#[derive(Clone, Copy, Debug, PartialEq, Eq, Structural)]
pub enum Event {
    KeyPress(Key),
    Other,
}

/// The keys that move a selection up: the arrow and its vi alias.
pub open spec fn is_up(key: Key) -> bool {
    key == Key::Up || key == Key::Char('k')
}

/// The keys that move a selection down.
pub open spec fn is_down(key: Key) -> bool {
    key == Key::Down || key == Key::Char('j')
}

/// The keys that move left.
pub open spec fn is_left(key: Key) -> bool {
    key == Key::Left || key == Key::Char('h')
}

/// The keys that move right.
pub open spec fn is_right(key: Key) -> bool {
    key == Key::Right || key == Key::Char('l')
}

} // verus!
