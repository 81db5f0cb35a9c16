//! Decoding of native window messages: from a message identifier and its two
//! parameters to a typed message.

use crate::input::enums::{ButtonState, KeyState, MouseButton, VirtualKey};
use crate::input::{
    CharEvent, FocusChangedEvent, KeyEvent, MouseButtonEvent, MouseMoveEvent, MouseWheelEvent,
    WindowMovedEvent, WindowResizedEvent,
};
use crate::win32::{
    lparam_hiword, lparam_loword, spec_hiword, spec_loword, spec_low32, spec_signed16,
    word_to_signed, wparam_hiword, WM_CHAR, WM_CLOSE, WM_CREATE, WM_DESTROY, WM_KEYDOWN,
    WM_KEYUP, WM_KILLFOCUS, WM_LBUTTONDOWN, WM_LBUTTONUP, WM_MBUTTONDOWN, WM_MBUTTONUP,
    WM_MOUSEHWHEEL, WM_MOUSEMOVE, WM_MOUSEWHEEL, WM_MOVE, WM_PAINT, WM_RBUTTONDOWN,
    WM_RBUTTONUP, WM_SETFOCUS, WM_SIZE, WM_XBUTTONDOWN, WM_XBUTTONUP, XBUTTON1, XBUTTON2,
};
use vstd::prelude::*;

verus! {

/// Whether a number is a Unicode scalar value: a code point that is no
/// surrogate.
pub open spec fn is_scalar_value(code: int) -> bool {
    (0 <= code <= 0xD7FF) || (0xE000 <= code <= 0x10FFFF)
}

/// `std::char::from_u32` of the standard library, which is trusted to do what its
/// documentation says: it returns the character with the given code where the
/// code is a Unicode scalar value, and `None` for every other number.
pub assume_specification[ std::char::from_u32 ](i: u32) -> (r: Option<char>)
    ensures
        r == if is_scalar_value(i as int) {
            Some(i as char)
        } else {
            None::<char>
        },
;

/// A payload that could not be interpreted.
#[derive(Debug, Copy, Clone, PartialEq, Eq, Structural)]
pub enum DecodeFailure {
    /// A character message carried a number that is no Unicode scalar value.
    /// The event is dropped.
    InvalidCharacter(u32),
    /// An extended-button message named a button other than the first or the
    /// second. The platform cannot send this; processing of the message is
    /// abandoned.
    UnknownXButton(u16),
}

/// An event that is delivered to the controller of a live window.
#[derive(Debug, Copy, Clone, PartialEq, Eq, Structural)]
pub enum WindowEvent {
    Moved(WindowMovedEvent),
    Resized(WindowResizedEvent),
    Key(KeyEvent),
    Char(CharEvent),
    Focus(FocusChangedEvent),
    MouseMove(MouseMoveEvent),
    MouseButton(MouseButtonEvent),
    MouseWheel(MouseWheelEvent),
}

/// A native message, decoded.
#[derive(Debug, Copy, Clone, PartialEq, Eq, Structural)]
pub enum Message {
    /// The platform has created the window and tells it so.
    Create,
    /// The user asks for the window to be closed.
    Close,
    /// The platform has finished destroying the window.
    Destroy,
    /// The window must repaint itself.
    Paint,
    /// An input or window event.
    Event(WindowEvent),
    /// A message of a known kind whose payload could not be interpreted.
    Malformed(DecodeFailure),
    /// A message that this layer does not handle.
    Other,
}

/// The position that a message parameter packs: the low word is `x`, the high
/// word is `y`, both signed.
pub open spec fn spec_point(lparam: int) -> (int, int) {
    (spec_signed16(spec_loword(lparam)), spec_signed16(spec_hiword(lparam)))
}

/// The size that a message parameter packs: the low word is the width, the
/// high word is the height, both unsigned.
pub open spec fn spec_size(lparam: int) -> (int, int) {
    (spec_loword(lparam), spec_hiword(lparam))
}

/// Bit 30 of the parameter of a key message: whether the key was down before
/// the message was sent.
pub open spec fn spec_prev_key_state(lparam: int) -> bool {
    (lparam / 0x4000_0000) % 2 == 1
}

/// The state that a key-down message reports.
pub open spec fn spec_key_down_state(lparam: int) -> KeyState {
    if spec_prev_key_state(lparam) {
        KeyState::Repeat
    } else {
        KeyState::Press
    }
}

/// The key that a key message names: the low 32 bits of its parameter, read
/// as a native key code.
pub open spec fn spec_vkey(wparam: int) -> VirtualKey {
    VirtualKey::spec_from_raw(spec_low32(wparam) as u32)
}

/// The character that a character message carries, if its code is one.
pub open spec fn spec_char_code(wparam: int) -> Option<char> {
    if is_scalar_value(spec_low32(wparam)) {
        Some(spec_low32(wparam) as char)
    } else {
        None
    }
}

/// The rotation that a wheel message carries in the high word of its
/// parameter.
pub open spec fn spec_wheel_delta(wparam: int) -> int {
    spec_signed16(spec_hiword(wparam))
}

/// The extended button that a message names in the high word of its
/// parameter, if it names one.
pub open spec fn spec_xkey(wparam: int) -> Option<MouseButton> {
    if spec_hiword(wparam) == XBUTTON1 {
        Some(MouseButton::X1)
    } else if spec_hiword(wparam) == XBUTTON2 {
        Some(MouseButton::X2)
    } else {
        None
    }
}

/// The signed position packed in a message parameter.
pub fn lparam_to_point(lparam: isize) -> (pos: (i16, i16))
    ensures
        (pos.0 as int, pos.1 as int) == spec_point(lparam as int),
{
    let x = word_to_signed(lparam_loword(lparam));
    let y = word_to_signed(lparam_hiword(lparam));
    (x, y)
}

/// The unsigned size packed in a message parameter.
pub fn lparam_to_size(lparam: isize) -> (size: (u16, u16))
    ensures
        (size.0 as int, size.1 as int) == spec_size(lparam as int),
{
    let width = lparam_loword(lparam);
    let height = lparam_hiword(lparam);
    (width, height)
}

/// The key that a key message names. Every code is accepted, so the result
/// is never `None`.
pub fn wparam_to_vkey(wparam: usize) -> (key: Option<VirtualKey>)
    ensures
        key == Some(spec_vkey(wparam as int)),
{
    Some(VirtualKey::from_raw(low32(wparam)))
}

/// Whether the key was down before the message was sent.
pub fn lparam_to_prev_key_state(lparam: isize) -> (down: bool)
    ensures
        down == spec_prev_key_state(lparam as int),
{
    assert((lparam & (1isize << 30) != 0) == (((lparam as int) / 0x4000_0000) % 2 == 1))
        by (bit_vector);
    lparam & (1isize << 30) != 0
}

/// The character that a character message carries; `None` where the number
/// is no Unicode scalar value.
pub fn wparam_char_code(wparam: usize) -> (c: Option<char>)
    ensures
        c == spec_char_code(wparam as int),
{
    std::char::from_u32(low32(wparam))
}

/// The rotation that a wheel message carries.
pub fn wparam_to_wheel_delta(wparam: usize) -> (delta: i16)
    ensures
        delta as int == spec_wheel_delta(wparam as int),
{
    word_to_signed(wparam_hiword(wparam))
}

/// The extended button that a message names.
///
/// The platform names the first or the second extended button and no other;
/// a caller that cannot rely on that looks at the high word first.
pub fn wparam_to_xkey(wparam: usize) -> (button: MouseButton)
    requires
        spec_xkey(wparam as int) is Some,
    ensures
        Some(button) == spec_xkey(wparam as int),
{
    if wparam_hiword(wparam) == XBUTTON1 {
        MouseButton::X1
    } else {
        MouseButton::X2
    }
}

/// The event that a mouse-button message reports for a known button.
pub open spec fn spec_button_event(button: MouseButton, state: ButtonState, lparam: int) -> Message {
    Message::Event(
        WindowEvent::MouseButton(
            MouseButtonEvent {
                button,
                state,
                x: spec_point(lparam).0 as i16,
                y: spec_point(lparam).1 as i16,
            },
        ),
    )
}

/// The event that an extended-button message reports, or the failure where
/// it names no button.
pub open spec fn spec_xbutton_event(state: ButtonState, wparam: int, lparam: int) -> Message {
    match spec_xkey(wparam) {
        Some(button) => spec_button_event(button, state, lparam),
        None => Message::Malformed(DecodeFailure::UnknownXButton(spec_hiword(wparam) as u16)),
    }
}

/// What a native message means.
///
/// Each message of a kind that this layer handles decodes to exactly one
/// typed message, built from the words of its two parameters; every other
/// identifier decodes to `Other`.
pub open spec fn spec_decode(msg: u32, wparam: int, lparam: int) -> Message {
    if msg == WM_CREATE {
        Message::Create
    } else if msg == WM_CLOSE {
        Message::Close
    } else if msg == WM_DESTROY {
        Message::Destroy
    } else if msg == WM_PAINT {
        Message::Paint
    } else if msg == WM_MOVE {
        Message::Event(
            WindowEvent::Moved(
                WindowMovedEvent { x: spec_point(lparam).0 as i16, y: spec_point(lparam).1 as i16 },
            ),
        )
    } else if msg == WM_SIZE {
        Message::Event(
            WindowEvent::Resized(
                WindowResizedEvent {
                    width: spec_size(lparam).0 as u16,
                    height: spec_size(lparam).1 as u16,
                },
            ),
        )
    } else if msg == WM_KEYDOWN {
        Message::Event(
            WindowEvent::Key(KeyEvent { key: spec_vkey(wparam), state: spec_key_down_state(lparam) }),
        )
    } else if msg == WM_KEYUP {
        Message::Event(WindowEvent::Key(KeyEvent { key: spec_vkey(wparam), state: KeyState::Release }))
    } else if msg == WM_CHAR {
        match spec_char_code(wparam) {
            Some(c) => Message::Event(
                WindowEvent::Char(CharEvent { c, repeat: spec_prev_key_state(lparam) }),
            ),
            None => Message::Malformed(DecodeFailure::InvalidCharacter(spec_low32(wparam) as u32)),
        }
    } else if msg == WM_SETFOCUS {
        Message::Event(WindowEvent::Focus(FocusChangedEvent { focused: true }))
    } else if msg == WM_KILLFOCUS {
        Message::Event(WindowEvent::Focus(FocusChangedEvent { focused: false }))
    } else if msg == WM_MOUSEMOVE {
        Message::Event(
            WindowEvent::MouseMove(
                MouseMoveEvent { x: spec_point(lparam).0 as i16, y: spec_point(lparam).1 as i16 },
            ),
        )
    } else if msg == WM_LBUTTONDOWN {
        spec_button_event(MouseButton::Left, ButtonState::Press, lparam)
    } else if msg == WM_LBUTTONUP {
        spec_button_event(MouseButton::Left, ButtonState::Release, lparam)
    } else if msg == WM_RBUTTONDOWN {
        spec_button_event(MouseButton::Right, ButtonState::Press, lparam)
    } else if msg == WM_RBUTTONUP {
        spec_button_event(MouseButton::Right, ButtonState::Release, lparam)
    } else if msg == WM_MBUTTONDOWN {
        spec_button_event(MouseButton::Middle, ButtonState::Press, lparam)
    } else if msg == WM_MBUTTONUP {
        spec_button_event(MouseButton::Middle, ButtonState::Release, lparam)
    } else if msg == WM_XBUTTONDOWN {
        spec_xbutton_event(ButtonState::Press, wparam, lparam)
    } else if msg == WM_XBUTTONUP {
        spec_xbutton_event(ButtonState::Release, wparam, lparam)
    } else if msg == WM_MOUSEWHEEL {
        Message::Event(
            WindowEvent::MouseWheel(
                MouseWheelEvent {
                    vert: spec_wheel_delta(wparam) as i16,
                    horz: 0,
                    x: spec_point(lparam).0 as i16,
                    y: spec_point(lparam).1 as i16,
                },
            ),
        )
    } else if msg == WM_MOUSEHWHEEL {
        Message::Event(
            WindowEvent::MouseWheel(
                MouseWheelEvent {
                    vert: 0,
                    horz: spec_wheel_delta(wparam) as i16,
                    x: spec_point(lparam).0 as i16,
                    y: spec_point(lparam).1 as i16,
                },
            ),
        )
    } else {
        Message::Other
    }
}

/// A mouse-button message for a known button, decoded.
fn button_message(button: MouseButton, state: ButtonState, lparam: isize) -> (message: Message)
    ensures
        message == spec_button_event(button, state, lparam as int),
{
    let (x, y) = lparam_to_point(lparam);
    Message::Event(WindowEvent::MouseButton(MouseButtonEvent::new(button, state, x, y)))
}

/// An extended-button message, decoded.
fn xbutton_message(state: ButtonState, wparam: usize, lparam: isize) -> (message: Message)
    ensures
        message == spec_xbutton_event(state, wparam as int, lparam as int),
{
    let which = wparam_hiword(wparam);
    if which == XBUTTON1 || which == XBUTTON2 {
        button_message(wparam_to_xkey(wparam), state, lparam)
    } else {
        Message::Malformed(DecodeFailure::UnknownXButton(which))
    }
}

/// Decodes a native message.
pub fn decode_message(msg: u32, wparam: usize, lparam: isize) -> (message: Message)
    ensures
        message == spec_decode(msg, wparam as int, lparam as int),
{
    match msg {
        WM_CREATE => Message::Create,
        WM_CLOSE => Message::Close,
        WM_DESTROY => Message::Destroy,
        WM_PAINT => Message::Paint,
        WM_MOVE => {
            let (x, y) = lparam_to_point(lparam);
            Message::Event(WindowEvent::Moved(WindowMovedEvent::new(x, y)))
        },
        WM_SIZE => {
            let (width, height) = lparam_to_size(lparam);
            Message::Event(WindowEvent::Resized(WindowResizedEvent::new(width, height)))
        },
        WM_KEYDOWN => {
            let key = VirtualKey::from_raw(low32(wparam));
            let state = if lparam_to_prev_key_state(lparam) {
                KeyState::Repeat
            } else {
                KeyState::Press
            };
            Message::Event(WindowEvent::Key(KeyEvent::new(key, state)))
        },
        WM_KEYUP => {
            let key = VirtualKey::from_raw(low32(wparam));
            Message::Event(WindowEvent::Key(KeyEvent::new(key, KeyState::Release)))
        },
        WM_CHAR => match wparam_char_code(wparam) {
            Some(c) => {
                let repeat = lparam_to_prev_key_state(lparam);
                Message::Event(WindowEvent::Char(CharEvent::new(c, repeat)))
            },
            None => Message::Malformed(DecodeFailure::InvalidCharacter(low32(wparam))),
        },
        WM_SETFOCUS => Message::Event(WindowEvent::Focus(FocusChangedEvent::new(true))),
        WM_KILLFOCUS => Message::Event(WindowEvent::Focus(FocusChangedEvent::new(false))),
        WM_MOUSEMOVE => {
            let (x, y) = lparam_to_point(lparam);
            Message::Event(WindowEvent::MouseMove(MouseMoveEvent::new(x, y)))
        },
        WM_LBUTTONDOWN => button_message(MouseButton::Left, ButtonState::Press, lparam),
        WM_LBUTTONUP => button_message(MouseButton::Left, ButtonState::Release, lparam),
        WM_RBUTTONDOWN => button_message(MouseButton::Right, ButtonState::Press, lparam),
        WM_RBUTTONUP => button_message(MouseButton::Right, ButtonState::Release, lparam),
        WM_MBUTTONDOWN => button_message(MouseButton::Middle, ButtonState::Press, lparam),
        WM_MBUTTONUP => button_message(MouseButton::Middle, ButtonState::Release, lparam),
        WM_XBUTTONDOWN => xbutton_message(ButtonState::Press, wparam, lparam),
        WM_XBUTTONUP => xbutton_message(ButtonState::Release, wparam, lparam),
        WM_MOUSEWHEEL => {
            let delta = wparam_to_wheel_delta(wparam);
            let (x, y) = lparam_to_point(lparam);
            Message::Event(WindowEvent::MouseWheel(MouseWheelEvent::new(delta, 0, x, y)))
        },
        WM_MOUSEHWHEEL => {
            let delta = wparam_to_wheel_delta(wparam);
            let (x, y) = lparam_to_point(lparam);
            Message::Event(WindowEvent::MouseWheel(MouseWheelEvent::new(0, delta, x, y)))
        },
        _ => Message::Other,
    }
}

/// The low 32 bits of the unsigned message parameter.
fn low32(wparam: usize) -> (low: u32)
    ensures
        low as int == spec_low32(wparam as int),
{
    assert((wparam as u32) as int == (wparam as int) % 0x1_0000_0000) by (bit_vector);
    wparam as u32
}

} // verus!
