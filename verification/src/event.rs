//! Semantic events: the platform-independent, normalized input events the
//! input context produces and the application's domain logic consumes.

use vstd::prelude::*;

use crate::geometry::Point;
use crate::key_code::{KeyCode, KeyCodeV};

verus! {

/// Keyboard modifier state, derived fresh from each platform modifier-change
/// notification; not persisted beyond the latest value.
#[derive(Clone, Copy, Debug, PartialEq, Eq, Structural)]
pub struct KeyboardModifiers {
    pub shift: bool,
    pub control: bool,
    pub alt: bool,
    pub command: bool,
}

impl KeyboardModifiers {
    /// The state with no modifier held.
    pub open spec fn released() -> KeyboardModifiers {
        KeyboardModifiers { shift: false, control: false, alt: false, command: false }
    }
}

impl Default for KeyboardModifiers {
    fn default() -> (m: KeyboardModifiers)
        ensures
            m == KeyboardModifiers::released(),
    {
        KeyboardModifiers { shift: false, control: false, alt: false, command: false }
    }
}

/// A mouse button.
#[derive(Clone, Copy, Debug, PartialEq, Eq, Hash, Structural)]
pub enum MouseButton {
    Left,
    Right,
    Middle,
    Back,
    Forward,
    Other(u16),
}

/// The phase of a platform touch notification.
#[derive(Clone, Copy, Debug, PartialEq, Eq, Structural)]
pub enum TouchPhase {
    Started,
    Moved,
    Ended,
    Cancelled,
}

/// A raw scroll amount as the platform reports it: either in lines or in
/// pixels, both in thousandths.
#[derive(Clone, Copy, Debug, PartialEq, Eq, Structural)]
pub enum ScrollDelta {
    Line(Point),
    Pixel(Point),
}

/// A semantic mouse event, in logical coordinates.
#[derive(Clone, Copy, Debug, PartialEq, Eq, Structural)]
pub enum MouseEvent {
    Move(Point),
    Scroll(Point),
}

/// A semantic mouse-button event.
#[derive(Clone, Copy, Debug, PartialEq, Eq, Structural)]
pub enum MouseTouchEvent {
    Down(MouseButton),
    Up(MouseButton),
}

/// A semantic touch event, in logical coordinates.
#[derive(Clone, Copy, Debug, PartialEq, Eq, Structural)]
pub enum TouchInputEvent {
    Begin { id: u64, position: Point },
    Move { id: u64, position: Point, delta: Point },
    End { id: u64, position: Point },
}

/// A semantic key event. `Down` carries whether the press is a repeat.
#[derive(Clone, Debug, PartialEq, Eq)]
pub enum KeyEvent {
    Down(KeyCode, bool),
    Up(KeyCode),
}

/// The mathematical value of a [`KeyEvent`].
pub enum KeyEventV {
    Down(KeyCodeV, bool),
    Up(KeyCodeV),
}

impl View for KeyEvent {
    type V = KeyEventV;

    open spec fn view(&self) -> KeyEventV {
        match self {
            KeyEvent::Down(code, repeat) => KeyEventV::Down(code@, *repeat),
            KeyEvent::Up(code) => KeyEventV::Up(code@),
        }
    }
}

/// Any semantic event, as handed to the event consumer.
#[derive(Clone, Debug, PartialEq, Eq)]
pub enum SemanticEvent {
    Mouse(MouseEvent),
    MouseTouch(MouseTouchEvent),
    Touch(TouchInputEvent),
    Key(KeyEvent),
}

/// The mathematical value of a [`SemanticEvent`].
pub enum SemanticEventV {
    Mouse(MouseEvent),
    MouseTouch(MouseTouchEvent),
    Touch(TouchInputEvent),
    Key(KeyEventV),
}

impl View for SemanticEvent {
    type V = SemanticEventV;

    open spec fn view(&self) -> SemanticEventV {
        match self {
            SemanticEvent::Mouse(e) => SemanticEventV::Mouse(*e),
            SemanticEvent::MouseTouch(e) => SemanticEventV::MouseTouch(*e),
            SemanticEvent::Touch(e) => SemanticEventV::Touch(*e),
            SemanticEvent::Key(e) => SemanticEventV::Key(e@),
        }
    }
}

} // verus!
