//! What holds of the decoding of messages, for every message.

use crate::input::enums::{ButtonState, KeyState, MouseButton, VirtualKey};
use crate::input::{KeyEvent, MouseMoveEvent};
use crate::message::{
    spec_button_event, spec_decode, spec_point, spec_prev_key_state, spec_vkey, DecodeFailure,
    Message, WindowEvent,
};
use crate::win32::{
    spec_hiword, spec_loword, spec_signed16, spec_word16, WM_KEYDOWN, WM_KEYUP, WM_MOUSEMOVE,
    WM_XBUTTONDOWN, WM_XBUTTONUP,
};
use crate::window::{on_message, Action, WindowState};
use vstd::prelude::*;

verus! {

/// Every named key is found again by its code: encoding a well-formed key and
/// decoding the code gives the key back.
pub proof fn law_key_round_trip(key: VirtualKey)
    requires
        key.wf(),
    ensures
        VirtualKey::spec_from_raw(key.spec_to_raw()) == key,
        key.spec_is_named() ==> VirtualKey::is_named_code(key.spec_to_raw()),
{
}

/// Every code decodes, and to a well-formed key that encodes to the same
/// code. A code that names no key decodes to `Unrecognized`, which keeps the
/// code and has no name.
pub proof fn law_code_round_trip(value: u32)
    ensures
        VirtualKey::spec_from_raw(value).wf(),
        VirtualKey::spec_from_raw(value).spec_to_raw() == value,
        !VirtualKey::is_named_code(value) ==> VirtualKey::spec_from_raw(value)
            == VirtualKey::Unrecognized(value),
        VirtualKey::is_named_code(value) ==> VirtualKey::spec_from_raw(value).spec_is_named(),
{
}

/// No two well-formed keys share a code.
pub proof fn law_codes_are_distinct(a: VirtualKey, b: VirtualKey)
    requires
        a.wf(),
        b.wf(),
        a.spec_to_raw() == b.spec_to_raw(),
    ensures
        a == b,
{
    law_key_round_trip(a);
    law_key_round_trip(b);
}

/// A 16-bit word and the signed number it stands for determine each other.
pub proof fn law_signed_word(x: i16, w: u16)
    ensures
        spec_signed16(spec_word16(x as int)) == x,
        spec_word16(spec_signed16(w as int)) == w,
        -0x8000 <= spec_signed16(w as int) < 0x8000,
        0 <= spec_word16(x as int) < 0x10000,
{
}

/// A parameter whose low word stands for `x` and whose high word stands for
/// `y` decodes to the position `(x, y)`, negative coordinates included,
/// whatever its bits above the two words are.
pub proof fn law_point_decode(lparam: isize, x: i16, y: i16)
    requires
        spec_loword(lparam as int) == spec_word16(x as int),
        spec_hiword(lparam as int) == spec_word16(y as int),
    ensures
        spec_point(lparam as int) == (x as int, y as int),
        spec_decode(WM_MOUSEMOVE, 0, lparam as int) == Message::Event(
            WindowEvent::MouseMove(MouseMoveEvent { x, y }),
        ),
{
}

/// The parameter that packs the position `(x, y)` and nothing else.
pub open spec fn spec_pack_point(x: i16, y: i16) -> int {
    spec_word16(x as int) + 0x10000 * spec_word16(y as int)
}

/// Packing a position and decoding the parameter gives the position back.
pub proof fn law_point_round_trip(x: i16, y: i16)
    ensures
        spec_point(spec_pack_point(x, y)) == (x as int, y as int),
{
    let lo = spec_word16(x as int);
    let hi = spec_word16(y as int);
    assert((lo + 0x10000 * hi) % 0x10000 == lo);
    assert((lo + 0x10000 * hi) / 0x10000 == hi);
}

/// A key-down message reports a repeat if bit 30 of its parameter is set and
/// a press if it is clear. A key-up message reports a release whatever that
/// bit is. Either names the key of its other parameter.
pub proof fn law_key_state(wparam: usize, lparam: isize)
    ensures
        spec_decode(WM_KEYDOWN, wparam as int, lparam as int) == Message::Event(
            WindowEvent::Key(
                KeyEvent {
                    key: spec_vkey(wparam as int),
                    state: if spec_prev_key_state(lparam as int) {
                        KeyState::Repeat
                    } else {
                        KeyState::Press
                    },
                },
            ),
        ),
        spec_decode(WM_KEYUP, wparam as int, lparam as int) == Message::Event(
            WindowEvent::Key(KeyEvent { key: spec_vkey(wparam as int), state: KeyState::Release }),
        ),
{
}

/// Whether a message is an extended-button message.
pub open spec fn is_xbutton_message(msg: u32) -> bool {
    msg == WM_XBUTTONDOWN || msg == WM_XBUTTONUP
}

/// Whether an extended-button message reports a press or a release.
pub open spec fn spec_xbutton_state(msg: u32) -> ButtonState {
    if msg == WM_XBUTTONDOWN {
        ButtonState::Press
    } else {
        ButtonState::Release
    }
}

/// An extended-button message whose high word is 1 is about the first
/// extended button, one whose high word is 2 about the second. Any other
/// high word makes the message malformed; no button stands in for it, and a
/// live window abandons the message.
pub proof fn law_xbutton(msg: u32, wparam: usize, lparam: isize, hwnd: isize)
    requires
        is_xbutton_message(msg),
    ensures
        spec_hiword(wparam as int) == 1 ==> spec_decode(msg, wparam as int, lparam as int)
            == spec_button_event(MouseButton::X1, spec_xbutton_state(msg), lparam as int),
        spec_hiword(wparam as int) == 2 ==> spec_decode(msg, wparam as int, lparam as int)
            == spec_button_event(MouseButton::X2, spec_xbutton_state(msg), lparam as int),
        spec_hiword(wparam as int) != 1 && spec_hiword(wparam as int) != 2 ==> {
            &&& spec_decode(msg, wparam as int, lparam as int) == Message::Malformed(
                DecodeFailure::UnknownXButton(spec_hiword(wparam as int) as u16),
            )
            &&& on_message(
                WindowState::Live { hwnd },
                hwnd,
                spec_decode(msg, wparam as int, lparam as int),
            ).1 == Action::Abort(DecodeFailure::UnknownXButton(spec_hiword(wparam as int) as u16))
        },
{
}

} // verus!
