//! The numeric vocabulary of the native windowing interface: message
//! identifiers, style bits, and the packed 16-bit words that messages carry
//! in their two parameters.

use vstd::prelude::*;

verus! {

/// A window has been created and is about to become visible.
pub const WM_CREATE: u32 = 0x0001;

/// A window is being destroyed.
pub const WM_DESTROY: u32 = 0x0002;

/// A window has been moved.
pub const WM_MOVE: u32 = 0x0003;

/// A window has changed size.
pub const WM_SIZE: u32 = 0x0005;

/// A window has gained the keyboard focus.
pub const WM_SETFOCUS: u32 = 0x0007;

/// A window is about to lose the keyboard focus.
pub const WM_KILLFOCUS: u32 = 0x0008;

/// A portion of a window must be repainted.
pub const WM_PAINT: u32 = 0x000F;

/// The user asks for a window to be closed.
pub const WM_CLOSE: u32 = 0x0010;

/// The application has been asked to terminate.
pub const WM_QUIT: u32 = 0x0012;

/// A key has been pressed.
pub const WM_KEYDOWN: u32 = 0x0100;

/// A key has been released.
pub const WM_KEYUP: u32 = 0x0101;

/// A key press has been translated into a character.
pub const WM_CHAR: u32 = 0x0102;

/// The cursor has moved.
pub const WM_MOUSEMOVE: u32 = 0x0200;

/// The left mouse button has been pressed.
pub const WM_LBUTTONDOWN: u32 = 0x0201;

/// The left mouse button has been released.
pub const WM_LBUTTONUP: u32 = 0x0202;

/// The right mouse button has been pressed.
pub const WM_RBUTTONDOWN: u32 = 0x0204;

/// The right mouse button has been released.
pub const WM_RBUTTONUP: u32 = 0x0205;

/// The middle mouse button has been pressed.
pub const WM_MBUTTONDOWN: u32 = 0x0207;

/// The middle mouse button has been released.
pub const WM_MBUTTONUP: u32 = 0x0208;

/// The vertical mouse wheel has been rotated.
pub const WM_MOUSEWHEEL: u32 = 0x020A;

/// One of the extended mouse buttons has been pressed.
pub const WM_XBUTTONDOWN: u32 = 0x020B;

/// One of the extended mouse buttons has been released.
pub const WM_XBUTTONUP: u32 = 0x020C;

/// The horizontal mouse wheel has been rotated.
pub const WM_MOUSEHWHEEL: u32 = 0x020E;

/// The value of the auxiliary subfield that names the first extended button.
pub const XBUTTON1: u16 = 1;

/// The value of the auxiliary subfield that names the second extended button.
pub const XBUTTON2: u16 = 2;

/// Style bit: the window is a pop-up window without a frame.
pub const WS_POPUP: u32 = 0x8000_0000;

/// Style bit: sibling windows are clipped against each other.
pub const WS_CLIPSIBLINGS: u32 = 0x0400_0000;

/// Style bit: the areas of child windows are excluded when the parent paints.
pub const WS_CLIPCHILDREN: u32 = 0x0200_0000;

/// Style bits: the window has a title bar (which includes a border).
pub const WS_CAPTION: u32 = 0x00C0_0000;

/// Style bit: the window has a window menu on its title bar.
pub const WS_SYSMENU: u32 = 0x0008_0000;

/// Style bit: the window has a sizing border.
pub const WS_THICKFRAME: u32 = 0x0004_0000;

/// Style bit: the window has a minimize button.
pub const WS_MINIMIZEBOX: u32 = 0x0002_0000;

/// Style bit: the window has a maximize button.
pub const WS_MAXIMIZEBOX: u32 = 0x0001_0000;

/// Extended style bit: a visible top-level window is shown on the taskbar.
pub const WS_EX_APPWINDOW: u32 = 0x0004_0000;

/// Class style bit: the whole window is redrawn when its width changes.
pub const CS_HREDRAW: u32 = 0x0002;

/// Class style bit: the whole window is redrawn when its height changes.
pub const CS_VREDRAW: u32 = 0x0001;

/// The position that lets the platform choose where a new window goes.
pub const CW_USEDEFAULT: i32 = -2147483648;

/// Show command: hide the window.
pub const SW_HIDE: i32 = 0;

/// Show command: activate the window and show it minimized.
pub const SW_SHOWMINIMIZED: i32 = 2;

/// Show command: activate the window and show it maximized.
pub const SW_SHOWMAXIMIZED: i32 = 3;

/// Show command: show the window as the program that started the application
/// asked.
pub const SW_SHOWDEFAULT: i32 = 10;

/// Bits 0 to 15 of a message parameter, as a number in `0..0x10000`.
///
/// The parameter is read in two's complement: a negative `v` has the same low
/// word as `v + 0x10000 * k` for every `k`.
pub open spec fn spec_loword(v: int) -> int {
    v % 0x10000
}

/// Bits 16 to 31 of a message parameter, as a number in `0..0x10000`.
pub open spec fn spec_hiword(v: int) -> int {
    (v / 0x10000) % 0x10000
}

/// Bits 0 to 31 of a message parameter, as a number in `0..0x1_0000_0000`.
pub open spec fn spec_low32(v: int) -> int {
    v % 0x1_0000_0000
}

/// The signed number that a 16-bit word stands for in two's complement.
pub open spec fn spec_signed16(w: int) -> int {
    if w >= 0x8000 {
        w - 0x10000
    } else {
        w
    }
}

/// The 16-bit word that stands for a signed number in two's complement.
pub open spec fn spec_word16(x: int) -> int {
    if x < 0 {
        x + 0x10000
    } else {
        x
    }
}

/// The low-order word of the signed message parameter.
pub fn lparam_loword(value: isize) -> (w: u16)
    ensures
        w as int == spec_loword(value as int),
{
    assert(value as u16 == (value as int) % 0x10000) by (bit_vector);
    value as u16
}

/// The high-order word of the low 32 bits of the signed message parameter.
pub fn lparam_hiword(value: isize) -> (w: u16)
    ensures
        w as int == spec_hiword(value as int),
{
    assert((((value as u32) >> 16) as u16) as int == ((value as int) / 0x10000) % 0x10000)
        by (bit_vector);
    ((value as u32) >> 16) as u16
}

/// The low-order word of the unsigned message parameter.
pub fn wparam_loword(value: usize) -> (w: u16)
    ensures
        w as int == spec_loword(value as int),
{
    assert(value as u16 == (value as int) % 0x10000) by (bit_vector);
    value as u16
}

/// The high-order word of the low 32 bits of the unsigned message parameter.
pub fn wparam_hiword(value: usize) -> (w: u16)
    ensures
        w as int == spec_hiword(value as int),
{
    assert((((value as u32) >> 16) as u16) as int == ((value as int) / 0x10000) % 0x10000)
        by (bit_vector);
    ((value as u32) >> 16) as u16
}

/// The signed reading of a 16-bit word.
pub fn word_to_signed(w: u16) -> (x: i16)
    ensures
        x as int == spec_signed16(w as int),
{
    assert((w as i16) as int == if w >= 0x8000 { w as int - 0x10000 } else { w as int })
        by (bit_vector);
    w as i16
}

} // verus!
