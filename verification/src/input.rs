//! The input events that the viewer reacts to, as plain values.

use vstd::prelude::*;

verus! {

/// A key of the keyboard. The keys that the viewer gives a meaning to are
/// named; every other key is `Other`.
#[derive(Clone, Copy, Debug, PartialEq, Eq, Structural)]
pub enum Key {
    W,
    Up,
    A,
    Left,
    S,
    Down,
    D,
    Right,
    Space,
    LShift,
    Q,
    E,
    Escape,
    Tab,
    P,
    L,
    Other,
}

/// An event taken from the window's queue.
#[derive(Clone, Copy, Debug, PartialEq, Eq, Structural)]
pub enum Event {
    /// The user asked to close the window.
    Quit,
    /// A key went down.
    KeyDown(Key),
    /// A key went up.
    KeyUp(Key),
    /// Any other event.
    Other,
}

/// The buttons and the position of the pointer inside the window.
#[derive(Clone, Copy, Debug, PartialEq, Eq, Structural)]
pub struct MouseState {
    pub left: bool,
    pub middle: bool,
    pub right: bool,
    pub x: i32,
    pub y: i32,
}

/// The buttons of the pointer and how far it moved since the last sample.
#[derive(Clone, Copy, Debug, PartialEq, Eq, Structural)]
pub struct RelativeMouseState {
    pub left: bool,
    pub middle: bool,
    pub right: bool,
    pub x: i32,
    pub y: i32,
}

} // verus!
