//! The event model: one immutable value per kind of input or window event.
//!
//! Coordinates, sizes and wheel deltas are kept as the 16-bit integers that
//! the platform delivers, so that no precision is lost on the way to the
//! caller.

pub mod enums;

use crate::input::enums::{ButtonState, KeyState, MouseButton, VirtualKey};
use vstd::prelude::*;

verus! {

/// A key went down, went up, or repeats.
#[derive(Debug, Copy, Clone, PartialEq, Eq, Structural)]
pub struct KeyEvent {
    pub key: VirtualKey,
    pub state: KeyState,
}

impl KeyEvent {
    pub fn new(key: VirtualKey, state: KeyState) -> (event: Self)
        ensures
            event == (KeyEvent { key, state }),
    {
        Self { key, state }
    }

    /// The key that the event is about.
    pub fn key(&self) -> (key: VirtualKey)
        ensures
            key == self.key,
    {
        self.key
    }

    /// What happened to the key.
    pub fn state(&self) -> (state: KeyState)
        ensures
            state == self.state,
    {
        self.state
    }

    /// Whether the event is about the given key.
    pub fn is_key(&self, key: VirtualKey) -> (same: bool)
        ensures
            same == (self.key == key),
    {
        self.key == key
    }

    /// Whether the key went down for the first time. A repeat does not count.
    pub fn is_down(&self) -> (down: bool)
        ensures
            down == (self.state == KeyState::Press),
    {
        self.state == KeyState::Press
    }

    /// Whether the key went up.
    pub fn is_up(&self) -> (up: bool)
        ensures
            up == (self.state == KeyState::Release),
    {
        self.state == KeyState::Release
    }
}

/// A character was typed.
#[derive(Debug, Copy, Clone, PartialEq, Eq, Structural)]
pub struct CharEvent {
    pub c: char,
    pub repeat: bool,
}

impl CharEvent {
    pub fn new(c: char, repeat: bool) -> (event: Self)
        ensures
            event == (CharEvent { c, repeat }),
    {
        Self { c, repeat }
    }

    /// The character that was typed.
    pub fn char(&self) -> (c: char)
        ensures
            c == self.c,
    {
        self.c
    }

    /// Whether the key was already down when the character was produced.
    pub fn repeat(&self) -> (repeat: bool)
        ensures
            repeat == self.repeat,
    {
        self.repeat
    }
}

/// The cursor moved inside the window.
#[derive(Debug, Copy, Clone, PartialEq, Eq, Structural)]
pub struct MouseMoveEvent {
    pub x: i16,
    pub y: i16,
}

impl MouseMoveEvent {
    pub fn new(x: i16, y: i16) -> (event: Self)
        ensures
            event == (MouseMoveEvent { x, y }),
    {
        Self { x, y }
    }

    /// Where the cursor is, relative to the client area.
    pub fn pos(&self) -> (pos: (i16, i16))
        ensures
            pos == (self.x, self.y),
    {
        (self.x, self.y)
    }
}

/// A mouse button went down or up.
#[derive(Debug, Copy, Clone, PartialEq, Eq, Structural)]
pub struct MouseButtonEvent {
    pub button: MouseButton,
    pub state: ButtonState,
    pub x: i16,
    pub y: i16,
}

impl MouseButtonEvent {
    pub fn new(button: MouseButton, state: ButtonState, x: i16, y: i16) -> (event: Self)
        ensures
            event == (MouseButtonEvent { button, state, x, y }),
    {
        Self { button, state, x, y }
    }

    /// The button that the event is about.
    pub fn button(&self) -> (button: MouseButton)
        ensures
            button == self.button,
    {
        self.button
    }

    /// What happened to the button.
    pub fn state(&self) -> (state: ButtonState)
        ensures
            state == self.state,
    {
        self.state
    }

    /// Where the cursor was, relative to the client area.
    pub fn pos(&self) -> (pos: (i16, i16))
        ensures
            pos == (self.x, self.y),
    {
        (self.x, self.y)
    }
}

/// A mouse wheel was rotated.
#[derive(Debug, Copy, Clone, PartialEq, Eq, Structural)]
pub struct MouseWheelEvent {
    pub vert: i16,
    pub horz: i16,
    pub x: i16,
    pub y: i16,
}

impl MouseWheelEvent {
    pub fn new(vert: i16, horz: i16, x: i16, y: i16) -> (event: Self)
        ensures
            event == (MouseWheelEvent { vert, horz, x, y }),
    {
        Self { vert, horz, x, y }
    }

    /// The rotation of the vertical wheel.
    pub fn vert(&self) -> (delta: i16)
        ensures
            delta == self.vert,
    {
        self.vert
    }

    /// The rotation of the horizontal wheel.
    pub fn horz(&self) -> (delta: i16)
        ensures
            delta == self.horz,
    {
        self.horz
    }

    /// The position that the message carried.
    pub fn pos(&self) -> (pos: (i16, i16))
        ensures
            pos == (self.x, self.y),
    {
        (self.x, self.y)
    }
}

/// The window was moved.
#[derive(Debug, Copy, Clone, PartialEq, Eq, Structural)]
pub struct WindowMovedEvent {
    pub x: i16,
    pub y: i16,
}

impl WindowMovedEvent {
    pub fn new(x: i16, y: i16) -> (event: Self)
        ensures
            event == (WindowMovedEvent { x, y }),
    {
        Self { x, y }
    }

    /// The new position of the upper-left corner of the client area.
    pub fn pos(&self) -> (pos: (i16, i16))
        ensures
            pos == (self.x, self.y),
    {
        (self.x, self.y)
    }
}

/// The window changed size.
#[derive(Debug, Copy, Clone, PartialEq, Eq, Structural)]
pub struct WindowResizedEvent {
    pub width: u16,
    pub height: u16,
}

impl WindowResizedEvent {
    pub fn new(width: u16, height: u16) -> (event: Self)
        ensures
            event == (WindowResizedEvent { width, height }),
    {
        Self { width, height }
    }

    /// The new size of the client area.
    pub fn size(&self) -> (size: (u16, u16))
        ensures
            size == (self.width, self.height),
    {
        (self.width, self.height)
    }
}

/// The window gained or lost the keyboard focus.
#[derive(Debug, Copy, Clone, PartialEq, Eq, Structural)]
pub struct FocusChangedEvent {
    pub focused: bool,
}

impl FocusChangedEvent {
    pub fn new(focused: bool) -> (event: Self)
        ensures
            event == (FocusChangedEvent { focused }),
    {
        Self { focused }
    }

    /// Whether the window has the focus now.
    pub fn focus(&self) -> (focused: bool)
        ensures
            focused == self.focused,
    {
        self.focused
    }
}

} // verus!
