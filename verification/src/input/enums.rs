//! The small enumerations of the event model, and the table that ties each
//! named key to its native code.

use crate::virtual_key;
use vstd::prelude::*;

verus! {

/// What happened to a key.
#[derive(Debug, Copy, Clone, PartialEq, Eq, Hash, Structural)]
pub enum KeyState {
    /// The key went down and was up before.
    Press,
    /// The key went up.
    Release,
    /// The key is held down and the keyboard repeats it.
    Repeat,
}

/// What happened to a mouse button.
#[derive(Debug, Copy, Clone, PartialEq, Eq, Hash, Structural)]
pub enum ButtonState {
    /// The button went up.
    Release,
    /// The button went down.
    Press,
}

/// A mouse button.
#[derive(Debug, Copy, Clone, PartialEq, Eq, Hash, Structural)]
pub enum MouseButton {
    /// The left button.
    Left,
    /// The right button.
    Right,
    /// The middle button.
    Middle,
    /// The first extended button.
    X1,
    /// The second extended button.
    X2,
}

/// A key of the keyboard, by name where it has one.
///
/// Every native code stands for exactly one well-formed value: the named key
/// with that code, or `Unrecognized` with the code itself where no key is
/// named so.
#[derive(Debug, Copy, Clone, PartialEq, Eq, Hash, Structural)]
pub enum VirtualKey {
    /// The `A` key.
    A,
    /// The `B` key.
    B,
    /// The `C` key.
    C,
    /// The `D` key.
    D,
    /// The `E` key.
    E,
    /// The `F` key.
    F,
    /// The `G` key.
    G,
    /// The `H` key.
    H,
    /// The `I` key.
    I,
    /// The `J` key.
    J,
    /// The `K` key.
    K,
    /// The `L` key.
    L,
    /// The `M` key.
    M,
    /// The `N` key.
    N,
    /// The `O` key.
    O,
    /// The `P` key.
    P,
    /// The `Q` key.
    Q,
    /// The `R` key.
    R,
    /// The `S` key.
    S,
    /// The `T` key.
    T,
    /// The `U` key.
    U,
    /// The `V` key.
    V,
    /// The `W` key.
    W,
    /// The `X` key.
    X,
    /// The `Y` key.
    Y,
    /// The `Z` key.
    Z,
    /// The `0` key of the main block.
    Num0,
    /// The `1` key of the main block.
    Num1,
    /// The `2` key of the main block.
    Num2,
    /// The `3` key of the main block.
    Num3,
    /// The `4` key of the main block.
    Num4,
    /// The `5` key of the main block.
    Num5,
    /// The `6` key of the main block.
    Num6,
    /// The `7` key of the main block.
    Num7,
    /// The `8` key of the main block.
    Num8,
    /// The `9` key of the main block.
    Num9,
    /// The `0` key of the numeric keypad.
    Numpad0,
    /// The `1` key of the numeric keypad.
    Numpad1,
    /// The `2` key of the numeric keypad.
    Numpad2,
    /// The `3` key of the numeric keypad.
    Numpad3,
    /// The `4` key of the numeric keypad.
    Numpad4,
    /// The `5` key of the numeric keypad.
    Numpad5,
    /// The `6` key of the numeric keypad.
    Numpad6,
    /// The `7` key of the numeric keypad.
    Numpad7,
    /// The `8` key of the numeric keypad.
    Numpad8,
    /// The `9` key of the numeric keypad.
    Numpad9,
    /// The multiply key of the numeric keypad.
    NumpadMultiply,
    /// The add key of the numeric keypad.
    NumpadAdd,
    /// The separator key of the numeric keypad.
    NumpadSeparator,
    /// The subtract key of the numeric keypad.
    NumpadSubtract,
    /// The decimal key of the numeric keypad.
    NumpadDecimal,
    /// The divide key of the numeric keypad.
    NumpadDivide,
    /// The backspace key.
    Backspace,
    /// The tab key.
    Tab,
    /// The enter key.
    Enter,
    /// The `F1` function key.
    F1,
    /// The `F2` function key.
    F2,
    /// The `F3` function key.
    F3,
    /// The `F4` function key.
    F4,
    /// The `F5` function key.
    F5,
    /// The `F6` function key.
    F6,
    /// The `F7` function key.
    F7,
    /// The `F8` function key.
    F8,
    /// The `F9` function key.
    F9,
    /// The `F10` function key.
    F10,
    /// The `F11` function key.
    F11,
    /// The `F12` function key.
    F12,
    /// The `F13` function key.
    F13,
    /// The `F14` function key.
    F14,
    /// The `F15` function key.
    F15,
    /// The `F16` function key.
    F16,
    /// The `F17` function key.
    F17,
    /// The `F18` function key.
    F18,
    /// The `F19` function key.
    F19,
    /// The `F20` function key.
    F20,
    /// The `F21` function key.
    F21,
    /// The `F22` function key.
    F22,
    /// The `F23` function key.
    F23,
    /// The `F24` function key.
    F24,
    /// Either shift key.
    Shift,
    /// Either control key.
    Control,
    /// Either alt key.
    Alt,
    /// The left shift key.
    LeftShift,
    /// The right shift key.
    RightShift,
    /// The left control key.
    LeftControl,
    /// The right control key.
    RightControl,
    /// The left alt key.
    LeftAlt,
    /// The right alt key.
    RightAlt,
    /// The left super key.
    LeftSuper,
    /// The right super key.
    RightSuper,
    /// The application menu key.
    Menu,
    /// The caps lock key.
    CapsLock,
    /// The num lock key.
    NumLock,
    /// The scroll lock key.
    ScrollLock,
    /// The pause key.
    Pause,
    /// The escape key.
    Escape,
    /// The space bar.
    Space,
    /// The insert key.
    Insert,
    /// The delete key.
    Delete,
    /// The page up key.
    PageUp,
    /// The page down key.
    PageDown,
    /// The end key.
    End,
    /// The home key.
    Home,
    /// The left arrow key.
    Left,
    /// The up arrow key.
    Up,
    /// The right arrow key.
    Right,
    /// The down arrow key.
    Down,
    /// The clear key.
    Clear,
    /// The select key.
    Select,
    /// The print key.
    Print,
    /// The execute key.
    Execute,
    /// The print screen key.
    PrintScreen,
    /// The help key.
    Help,
    /// The `;:` key.
    Colon,
    /// The `=+` key.
    Plus,
    /// The `,<` key.
    Comma,
    /// The `-_` key.
    Minus,
    /// The `.>` key.
    Period,
    /// The `/?` key.
    Slash,
    /// The `` `~ `` key.
    Tilde,
    /// The `[{` key.
    LeftBracket,
    /// The `\\|` key.
    Backslash,
    /// The `]}` key.
    RightBracket,
    /// The `'"` key.
    Quote,
    /// The volume mute key.
    VolumeMute,
    /// The volume down key.
    VolumeDown,
    /// The volume up key.
    VolumeUp,
    /// The next track key.
    MediaNextTrack,
    /// The previous track key.
    MediaPreviousTrack,
    /// The stop media key.
    MediaStop,
    /// The play or pause media key.
    MediaPlayPause,
    /// A native code that names no key of this enumeration.
    Unrecognized(u32),
}

impl VirtualKey {
    /// The native code of a key.
    pub open spec fn spec_to_raw(self) -> u32 {
        match self {
            VirtualKey::A => virtual_key::A,
            VirtualKey::B => virtual_key::B,
            VirtualKey::C => virtual_key::C,
            VirtualKey::D => virtual_key::D,
            VirtualKey::E => virtual_key::E,
            VirtualKey::F => virtual_key::F,
            VirtualKey::G => virtual_key::G,
            VirtualKey::H => virtual_key::H,
            VirtualKey::I => virtual_key::I,
            VirtualKey::J => virtual_key::J,
            VirtualKey::K => virtual_key::K,
            VirtualKey::L => virtual_key::L,
            VirtualKey::M => virtual_key::M,
            VirtualKey::N => virtual_key::N,
            VirtualKey::O => virtual_key::O,
            VirtualKey::P => virtual_key::P,
            VirtualKey::Q => virtual_key::Q,
            VirtualKey::R => virtual_key::R,
            VirtualKey::S => virtual_key::S,
            VirtualKey::T => virtual_key::T,
            VirtualKey::U => virtual_key::U,
            VirtualKey::V => virtual_key::V,
            VirtualKey::W => virtual_key::W,
            VirtualKey::X => virtual_key::X,
            VirtualKey::Y => virtual_key::Y,
            VirtualKey::Z => virtual_key::Z,
            VirtualKey::Num0 => virtual_key::NUM0,
            VirtualKey::Num1 => virtual_key::NUM1,
            VirtualKey::Num2 => virtual_key::NUM2,
            VirtualKey::Num3 => virtual_key::NUM3,
            VirtualKey::Num4 => virtual_key::NUM4,
            VirtualKey::Num5 => virtual_key::NUM5,
            VirtualKey::Num6 => virtual_key::NUM6,
            VirtualKey::Num7 => virtual_key::NUM7,
            VirtualKey::Num8 => virtual_key::NUM8,
            VirtualKey::Num9 => virtual_key::NUM9,
            VirtualKey::Numpad0 => virtual_key::NUMPAD0,
            VirtualKey::Numpad1 => virtual_key::NUMPAD1,
            VirtualKey::Numpad2 => virtual_key::NUMPAD2,
            VirtualKey::Numpad3 => virtual_key::NUMPAD3,
            VirtualKey::Numpad4 => virtual_key::NUMPAD4,
            VirtualKey::Numpad5 => virtual_key::NUMPAD5,
            VirtualKey::Numpad6 => virtual_key::NUMPAD6,
            VirtualKey::Numpad7 => virtual_key::NUMPAD7,
            VirtualKey::Numpad8 => virtual_key::NUMPAD8,
            VirtualKey::Numpad9 => virtual_key::NUMPAD9,
            VirtualKey::NumpadMultiply => virtual_key::NUMPAD_MULTIPLY,
            VirtualKey::NumpadAdd => virtual_key::NUMPAD_ADD,
            VirtualKey::NumpadSeparator => virtual_key::NUMPAD_SEPARATOR,
            VirtualKey::NumpadSubtract => virtual_key::NUMPAD_SUBTRACT,
            VirtualKey::NumpadDecimal => virtual_key::NUMPAD_DECIMAL,
            VirtualKey::NumpadDivide => virtual_key::NUMPAD_DIVIDE,
            VirtualKey::Backspace => virtual_key::BACKSPACE,
            VirtualKey::Tab => virtual_key::TAB,
            VirtualKey::Enter => virtual_key::ENTER,
            VirtualKey::F1 => virtual_key::F1,
            VirtualKey::F2 => virtual_key::F2,
            VirtualKey::F3 => virtual_key::F3,
            VirtualKey::F4 => virtual_key::F4,
            VirtualKey::F5 => virtual_key::F5,
            VirtualKey::F6 => virtual_key::F6,
            VirtualKey::F7 => virtual_key::F7,
            VirtualKey::F8 => virtual_key::F8,
            VirtualKey::F9 => virtual_key::F9,
            VirtualKey::F10 => virtual_key::F10,
            VirtualKey::F11 => virtual_key::F11,
            VirtualKey::F12 => virtual_key::F12,
            VirtualKey::F13 => virtual_key::F13,
            VirtualKey::F14 => virtual_key::F14,
            VirtualKey::F15 => virtual_key::F15,
            VirtualKey::F16 => virtual_key::F16,
            VirtualKey::F17 => virtual_key::F17,
            VirtualKey::F18 => virtual_key::F18,
            VirtualKey::F19 => virtual_key::F19,
            VirtualKey::F20 => virtual_key::F20,
            VirtualKey::F21 => virtual_key::F21,
            VirtualKey::F22 => virtual_key::F22,
            VirtualKey::F23 => virtual_key::F23,
            VirtualKey::F24 => virtual_key::F24,
            VirtualKey::Shift => virtual_key::SHIFT,
            VirtualKey::Control => virtual_key::CONTROL,
            VirtualKey::Alt => virtual_key::ALT,
            VirtualKey::LeftShift => virtual_key::LEFT_SHIFT,
            VirtualKey::RightShift => virtual_key::RIGHT_SHIFT,
            VirtualKey::LeftControl => virtual_key::LEFT_CONTROL,
            VirtualKey::RightControl => virtual_key::RIGHT_CONTROL,
            VirtualKey::LeftAlt => virtual_key::LEFT_ALT,
            VirtualKey::RightAlt => virtual_key::RIGHT_ALT,
            VirtualKey::LeftSuper => virtual_key::LEFT_SUPER,
            VirtualKey::RightSuper => virtual_key::RIGHT_SUPER,
            VirtualKey::Menu => virtual_key::MENU,
            VirtualKey::CapsLock => virtual_key::CAPS_LOCK,
            VirtualKey::NumLock => virtual_key::NUM_LOCK,
            VirtualKey::ScrollLock => virtual_key::SCROLL_LOCK,
            VirtualKey::Pause => virtual_key::PAUSE,
            VirtualKey::Escape => virtual_key::ESCAPE,
            VirtualKey::Space => virtual_key::SPACE,
            VirtualKey::Insert => virtual_key::INSERT,
            VirtualKey::Delete => virtual_key::DELETE,
            VirtualKey::PageUp => virtual_key::PAGE_UP,
            VirtualKey::PageDown => virtual_key::PAGE_DOWN,
            VirtualKey::End => virtual_key::END,
            VirtualKey::Home => virtual_key::HOME,
            VirtualKey::Left => virtual_key::LEFT,
            VirtualKey::Up => virtual_key::UP,
            VirtualKey::Right => virtual_key::RIGHT,
            VirtualKey::Down => virtual_key::DOWN,
            VirtualKey::Clear => virtual_key::CLEAR,
            VirtualKey::Select => virtual_key::SELECT,
            VirtualKey::Print => virtual_key::PRINT,
            VirtualKey::Execute => virtual_key::EXECUTE,
            VirtualKey::PrintScreen => virtual_key::PRINT_SCREEN,
            VirtualKey::Help => virtual_key::HELP,
            VirtualKey::Colon => virtual_key::COLON,
            VirtualKey::Plus => virtual_key::PLUS,
            VirtualKey::Comma => virtual_key::COMMA,
            VirtualKey::Minus => virtual_key::MINUS,
            VirtualKey::Period => virtual_key::PERIOD,
            VirtualKey::Slash => virtual_key::SLASH,
            VirtualKey::Tilde => virtual_key::TILDE,
            VirtualKey::LeftBracket => virtual_key::LEFT_BRACKET,
            VirtualKey::Backslash => virtual_key::BACKSLASH,
            VirtualKey::RightBracket => virtual_key::RIGHT_BRACKET,
            VirtualKey::Quote => virtual_key::QUOTE,
            VirtualKey::VolumeMute => virtual_key::VOLUME_MUTE,
            VirtualKey::VolumeDown => virtual_key::VOLUME_DOWN,
            VirtualKey::VolumeUp => virtual_key::VOLUME_UP,
            VirtualKey::MediaNextTrack => virtual_key::MEDIA_NEXT_TRACK,
            VirtualKey::MediaPreviousTrack => virtual_key::MEDIA_PREV_TRACK,
            VirtualKey::MediaStop => virtual_key::MEDIA_STOP,
            VirtualKey::MediaPlayPause => virtual_key::MEDIA_PLAY_PAUSE,
            VirtualKey::Unrecognized(code) => code,
        }
    }

    /// The key that a native code stands for.
    pub open spec fn spec_from_raw(value: u32) -> VirtualKey {
        if value == virtual_key::A {
            VirtualKey::A
        }
        else if value == virtual_key::B {
            VirtualKey::B
        }
        else if value == virtual_key::C {
            VirtualKey::C
        }
        else if value == virtual_key::D {
            VirtualKey::D
        }
        else if value == virtual_key::E {
            VirtualKey::E
        }
        else if value == virtual_key::F {
            VirtualKey::F
        }
        else if value == virtual_key::G {
            VirtualKey::G
        }
        else if value == virtual_key::H {
            VirtualKey::H
        }
        else if value == virtual_key::I {
            VirtualKey::I
        }
        else if value == virtual_key::J {
            VirtualKey::J
        }
        else if value == virtual_key::K {
            VirtualKey::K
        }
        else if value == virtual_key::L {
            VirtualKey::L
        }
        else if value == virtual_key::M {
            VirtualKey::M
        }
        else if value == virtual_key::N {
            VirtualKey::N
        }
        else if value == virtual_key::O {
            VirtualKey::O
        }
        else if value == virtual_key::P {
            VirtualKey::P
        }
        else if value == virtual_key::Q {
            VirtualKey::Q
        }
        else if value == virtual_key::R {
            VirtualKey::R
        }
        else if value == virtual_key::S {
            VirtualKey::S
        }
        else if value == virtual_key::T {
            VirtualKey::T
        }
        else if value == virtual_key::U {
            VirtualKey::U
        }
        else if value == virtual_key::V {
            VirtualKey::V
        }
        else if value == virtual_key::W {
            VirtualKey::W
        }
        else if value == virtual_key::X {
            VirtualKey::X
        }
        else if value == virtual_key::Y {
            VirtualKey::Y
        }
        else if value == virtual_key::Z {
            VirtualKey::Z
        }
        else if value == virtual_key::NUM0 {
            VirtualKey::Num0
        }
        else if value == virtual_key::NUM1 {
            VirtualKey::Num1
        }
        else if value == virtual_key::NUM2 {
            VirtualKey::Num2
        }
        else if value == virtual_key::NUM3 {
            VirtualKey::Num3
        }
        else if value == virtual_key::NUM4 {
            VirtualKey::Num4
        }
        else if value == virtual_key::NUM5 {
            VirtualKey::Num5
        }
        else if value == virtual_key::NUM6 {
            VirtualKey::Num6
        }
        else if value == virtual_key::NUM7 {
            VirtualKey::Num7
        }
        else if value == virtual_key::NUM8 {
            VirtualKey::Num8
        }
        else if value == virtual_key::NUM9 {
            VirtualKey::Num9
        }
        else if value == virtual_key::NUMPAD0 {
            VirtualKey::Numpad0
        }
        else if value == virtual_key::NUMPAD1 {
            VirtualKey::Numpad1
        }
        else if value == virtual_key::NUMPAD2 {
            VirtualKey::Numpad2
        }
        else if value == virtual_key::NUMPAD3 {
            VirtualKey::Numpad3
        }
        else if value == virtual_key::NUMPAD4 {
            VirtualKey::Numpad4
        }
        else if value == virtual_key::NUMPAD5 {
            VirtualKey::Numpad5
        }
        else if value == virtual_key::NUMPAD6 {
            VirtualKey::Numpad6
        }
        else if value == virtual_key::NUMPAD7 {
            VirtualKey::Numpad7
        }
        else if value == virtual_key::NUMPAD8 {
            VirtualKey::Numpad8
        }
        else if value == virtual_key::NUMPAD9 {
            VirtualKey::Numpad9
        }
        else if value == virtual_key::NUMPAD_MULTIPLY {
            VirtualKey::NumpadMultiply
        }
        else if value == virtual_key::NUMPAD_ADD {
            VirtualKey::NumpadAdd
        }
        else if value == virtual_key::NUMPAD_SEPARATOR {
            VirtualKey::NumpadSeparator
        }
        else if value == virtual_key::NUMPAD_SUBTRACT {
            VirtualKey::NumpadSubtract
        }
        else if value == virtual_key::NUMPAD_DECIMAL {
            VirtualKey::NumpadDecimal
        }
        else if value == virtual_key::NUMPAD_DIVIDE {
            VirtualKey::NumpadDivide
        }
        else if value == virtual_key::BACKSPACE {
            VirtualKey::Backspace
        }
        else if value == virtual_key::TAB {
            VirtualKey::Tab
        }
        else if value == virtual_key::ENTER {
            VirtualKey::Enter
        }
        else if value == virtual_key::F1 {
            VirtualKey::F1
        }
        else if value == virtual_key::F2 {
            VirtualKey::F2
        }
        else if value == virtual_key::F3 {
            VirtualKey::F3
        }
        else if value == virtual_key::F4 {
            VirtualKey::F4
        }
        else if value == virtual_key::F5 {
            VirtualKey::F5
        }
        else if value == virtual_key::F6 {
            VirtualKey::F6
        }
        else if value == virtual_key::F7 {
            VirtualKey::F7
        }
        else if value == virtual_key::F8 {
            VirtualKey::F8
        }
        else if value == virtual_key::F9 {
            VirtualKey::F9
        }
        else if value == virtual_key::F10 {
            VirtualKey::F10
        }
        else if value == virtual_key::F11 {
            VirtualKey::F11
        }
        else if value == virtual_key::F12 {
            VirtualKey::F12
        }
        else if value == virtual_key::F13 {
            VirtualKey::F13
        }
        else if value == virtual_key::F14 {
            VirtualKey::F14
        }
        else if value == virtual_key::F15 {
            VirtualKey::F15
        }
        else if value == virtual_key::F16 {
            VirtualKey::F16
        }
        else if value == virtual_key::F17 {
            VirtualKey::F17
        }
        else if value == virtual_key::F18 {
            VirtualKey::F18
        }
        else if value == virtual_key::F19 {
            VirtualKey::F19
        }
        else if value == virtual_key::F20 {
            VirtualKey::F20
        }
        else if value == virtual_key::F21 {
            VirtualKey::F21
        }
        else if value == virtual_key::F22 {
            VirtualKey::F22
        }
        else if value == virtual_key::F23 {
            VirtualKey::F23
        }
        else if value == virtual_key::F24 {
            VirtualKey::F24
        }
        else if value == virtual_key::SHIFT {
            VirtualKey::Shift
        }
        else if value == virtual_key::CONTROL {
            VirtualKey::Control
        }
        else if value == virtual_key::ALT {
            VirtualKey::Alt
        }
        else if value == virtual_key::LEFT_SHIFT {
            VirtualKey::LeftShift
        }
        else if value == virtual_key::RIGHT_SHIFT {
            VirtualKey::RightShift
        }
        else if value == virtual_key::LEFT_CONTROL {
            VirtualKey::LeftControl
        }
        else if value == virtual_key::RIGHT_CONTROL {
            VirtualKey::RightControl
        }
        else if value == virtual_key::LEFT_ALT {
            VirtualKey::LeftAlt
        }
        else if value == virtual_key::RIGHT_ALT {
            VirtualKey::RightAlt
        }
        else if value == virtual_key::LEFT_SUPER {
            VirtualKey::LeftSuper
        }
        else if value == virtual_key::RIGHT_SUPER {
            VirtualKey::RightSuper
        }
        else if value == virtual_key::MENU {
            VirtualKey::Menu
        }
        else if value == virtual_key::CAPS_LOCK {
            VirtualKey::CapsLock
        }
        else if value == virtual_key::NUM_LOCK {
            VirtualKey::NumLock
        }
        else if value == virtual_key::SCROLL_LOCK {
            VirtualKey::ScrollLock
        }
        else if value == virtual_key::PAUSE {
            VirtualKey::Pause
        }
        else if value == virtual_key::ESCAPE {
            VirtualKey::Escape
        }
        else if value == virtual_key::SPACE {
            VirtualKey::Space
        }
        else if value == virtual_key::INSERT {
            VirtualKey::Insert
        }
        else if value == virtual_key::DELETE {
            VirtualKey::Delete
        }
        else if value == virtual_key::PAGE_UP {
            VirtualKey::PageUp
        }
        else if value == virtual_key::PAGE_DOWN {
            VirtualKey::PageDown
        }
        else if value == virtual_key::END {
            VirtualKey::End
        }
        else if value == virtual_key::HOME {
            VirtualKey::Home
        }
        else if value == virtual_key::LEFT {
            VirtualKey::Left
        }
        else if value == virtual_key::UP {
            VirtualKey::Up
        }
        else if value == virtual_key::RIGHT {
            VirtualKey::Right
        }
        else if value == virtual_key::DOWN {
            VirtualKey::Down
        }
        else if value == virtual_key::CLEAR {
            VirtualKey::Clear
        }
        else if value == virtual_key::SELECT {
            VirtualKey::Select
        }
        else if value == virtual_key::PRINT {
            VirtualKey::Print
        }
        else if value == virtual_key::EXECUTE {
            VirtualKey::Execute
        }
        else if value == virtual_key::PRINT_SCREEN {
            VirtualKey::PrintScreen
        }
        else if value == virtual_key::HELP {
            VirtualKey::Help
        }
        else if value == virtual_key::COLON {
            VirtualKey::Colon
        }
        else if value == virtual_key::PLUS {
            VirtualKey::Plus
        }
        else if value == virtual_key::COMMA {
            VirtualKey::Comma
        }
        else if value == virtual_key::MINUS {
            VirtualKey::Minus
        }
        else if value == virtual_key::PERIOD {
            VirtualKey::Period
        }
        else if value == virtual_key::SLASH {
            VirtualKey::Slash
        }
        else if value == virtual_key::TILDE {
            VirtualKey::Tilde
        }
        else if value == virtual_key::LEFT_BRACKET {
            VirtualKey::LeftBracket
        }
        else if value == virtual_key::BACKSLASH {
            VirtualKey::Backslash
        }
        else if value == virtual_key::RIGHT_BRACKET {
            VirtualKey::RightBracket
        }
        else if value == virtual_key::QUOTE {
            VirtualKey::Quote
        }
        else if value == virtual_key::VOLUME_MUTE {
            VirtualKey::VolumeMute
        }
        else if value == virtual_key::VOLUME_DOWN {
            VirtualKey::VolumeDown
        }
        else if value == virtual_key::VOLUME_UP {
            VirtualKey::VolumeUp
        }
        else if value == virtual_key::MEDIA_NEXT_TRACK {
            VirtualKey::MediaNextTrack
        }
        else if value == virtual_key::MEDIA_PREV_TRACK {
            VirtualKey::MediaPreviousTrack
        }
        else if value == virtual_key::MEDIA_STOP {
            VirtualKey::MediaStop
        }
        else if value == virtual_key::MEDIA_PLAY_PAUSE {
            VirtualKey::MediaPlayPause
        }
        else {
            VirtualKey::Unrecognized(value)
        }
    }

    /// Whether a key has a name.
    pub open spec fn spec_is_named(self) -> bool {
        !(self is Unrecognized)
    }

    /// Whether a native code is the code of a named key.
    pub open spec fn is_named_code(value: u32) -> bool {
        Self::spec_from_raw(value).spec_is_named()
    }

    /// A value is well formed unless it hides the code of a named key behind
    /// `Unrecognized`.
    pub open spec fn wf(self) -> bool {
        self matches VirtualKey::Unrecognized(code) ==> !Self::is_named_code(code)
    }

    /// The key that a native code stands for. Every code is accepted: one that
    /// names no key comes back as `Unrecognized` and keeps its value.
    pub fn from_raw(value: u32) -> (key: VirtualKey)
        ensures
            key == Self::spec_from_raw(value),
            key.spec_to_raw() == value,
            key.wf(),
            key.spec_is_named() <==> Self::is_named_code(value),
    {
        match value {
            virtual_key::A => VirtualKey::A,
            virtual_key::B => VirtualKey::B,
            virtual_key::C => VirtualKey::C,
            virtual_key::D => VirtualKey::D,
            virtual_key::E => VirtualKey::E,
            virtual_key::F => VirtualKey::F,
            virtual_key::G => VirtualKey::G,
            virtual_key::H => VirtualKey::H,
            virtual_key::I => VirtualKey::I,
            virtual_key::J => VirtualKey::J,
            virtual_key::K => VirtualKey::K,
            virtual_key::L => VirtualKey::L,
            virtual_key::M => VirtualKey::M,
            virtual_key::N => VirtualKey::N,
            virtual_key::O => VirtualKey::O,
            virtual_key::P => VirtualKey::P,
            virtual_key::Q => VirtualKey::Q,
            virtual_key::R => VirtualKey::R,
            virtual_key::S => VirtualKey::S,
            virtual_key::T => VirtualKey::T,
            virtual_key::U => VirtualKey::U,
            virtual_key::V => VirtualKey::V,
            virtual_key::W => VirtualKey::W,
            virtual_key::X => VirtualKey::X,
            virtual_key::Y => VirtualKey::Y,
            virtual_key::Z => VirtualKey::Z,
            virtual_key::NUM0 => VirtualKey::Num0,
            virtual_key::NUM1 => VirtualKey::Num1,
            virtual_key::NUM2 => VirtualKey::Num2,
            virtual_key::NUM3 => VirtualKey::Num3,
            virtual_key::NUM4 => VirtualKey::Num4,
            virtual_key::NUM5 => VirtualKey::Num5,
            virtual_key::NUM6 => VirtualKey::Num6,
            virtual_key::NUM7 => VirtualKey::Num7,
            virtual_key::NUM8 => VirtualKey::Num8,
            virtual_key::NUM9 => VirtualKey::Num9,
            virtual_key::NUMPAD0 => VirtualKey::Numpad0,
            virtual_key::NUMPAD1 => VirtualKey::Numpad1,
            virtual_key::NUMPAD2 => VirtualKey::Numpad2,
            virtual_key::NUMPAD3 => VirtualKey::Numpad3,
            virtual_key::NUMPAD4 => VirtualKey::Numpad4,
            virtual_key::NUMPAD5 => VirtualKey::Numpad5,
            virtual_key::NUMPAD6 => VirtualKey::Numpad6,
            virtual_key::NUMPAD7 => VirtualKey::Numpad7,
            virtual_key::NUMPAD8 => VirtualKey::Numpad8,
            virtual_key::NUMPAD9 => VirtualKey::Numpad9,
            virtual_key::NUMPAD_MULTIPLY => VirtualKey::NumpadMultiply,
            virtual_key::NUMPAD_ADD => VirtualKey::NumpadAdd,
            virtual_key::NUMPAD_SEPARATOR => VirtualKey::NumpadSeparator,
            virtual_key::NUMPAD_SUBTRACT => VirtualKey::NumpadSubtract,
            virtual_key::NUMPAD_DECIMAL => VirtualKey::NumpadDecimal,
            virtual_key::NUMPAD_DIVIDE => VirtualKey::NumpadDivide,
            virtual_key::BACKSPACE => VirtualKey::Backspace,
            virtual_key::TAB => VirtualKey::Tab,
            virtual_key::ENTER => VirtualKey::Enter,
            virtual_key::F1 => VirtualKey::F1,
            virtual_key::F2 => VirtualKey::F2,
            virtual_key::F3 => VirtualKey::F3,
            virtual_key::F4 => VirtualKey::F4,
            virtual_key::F5 => VirtualKey::F5,
            virtual_key::F6 => VirtualKey::F6,
            virtual_key::F7 => VirtualKey::F7,
            virtual_key::F8 => VirtualKey::F8,
            virtual_key::F9 => VirtualKey::F9,
            virtual_key::F10 => VirtualKey::F10,
            virtual_key::F11 => VirtualKey::F11,
            virtual_key::F12 => VirtualKey::F12,
            virtual_key::F13 => VirtualKey::F13,
            virtual_key::F14 => VirtualKey::F14,
            virtual_key::F15 => VirtualKey::F15,
            virtual_key::F16 => VirtualKey::F16,
            virtual_key::F17 => VirtualKey::F17,
            virtual_key::F18 => VirtualKey::F18,
            virtual_key::F19 => VirtualKey::F19,
            virtual_key::F20 => VirtualKey::F20,
            virtual_key::F21 => VirtualKey::F21,
            virtual_key::F22 => VirtualKey::F22,
            virtual_key::F23 => VirtualKey::F23,
            virtual_key::F24 => VirtualKey::F24,
            virtual_key::SHIFT => VirtualKey::Shift,
            virtual_key::CONTROL => VirtualKey::Control,
            virtual_key::ALT => VirtualKey::Alt,
            virtual_key::LEFT_SHIFT => VirtualKey::LeftShift,
            virtual_key::RIGHT_SHIFT => VirtualKey::RightShift,
            virtual_key::LEFT_CONTROL => VirtualKey::LeftControl,
            virtual_key::RIGHT_CONTROL => VirtualKey::RightControl,
            virtual_key::LEFT_ALT => VirtualKey::LeftAlt,
            virtual_key::RIGHT_ALT => VirtualKey::RightAlt,
            virtual_key::LEFT_SUPER => VirtualKey::LeftSuper,
            virtual_key::RIGHT_SUPER => VirtualKey::RightSuper,
            virtual_key::MENU => VirtualKey::Menu,
            virtual_key::CAPS_LOCK => VirtualKey::CapsLock,
            virtual_key::NUM_LOCK => VirtualKey::NumLock,
            virtual_key::SCROLL_LOCK => VirtualKey::ScrollLock,
            virtual_key::PAUSE => VirtualKey::Pause,
            virtual_key::ESCAPE => VirtualKey::Escape,
            virtual_key::SPACE => VirtualKey::Space,
            virtual_key::INSERT => VirtualKey::Insert,
            virtual_key::DELETE => VirtualKey::Delete,
            virtual_key::PAGE_UP => VirtualKey::PageUp,
            virtual_key::PAGE_DOWN => VirtualKey::PageDown,
            virtual_key::END => VirtualKey::End,
            virtual_key::HOME => VirtualKey::Home,
            virtual_key::LEFT => VirtualKey::Left,
            virtual_key::UP => VirtualKey::Up,
            virtual_key::RIGHT => VirtualKey::Right,
            virtual_key::DOWN => VirtualKey::Down,
            virtual_key::CLEAR => VirtualKey::Clear,
            virtual_key::SELECT => VirtualKey::Select,
            virtual_key::PRINT => VirtualKey::Print,
            virtual_key::EXECUTE => VirtualKey::Execute,
            virtual_key::PRINT_SCREEN => VirtualKey::PrintScreen,
            virtual_key::HELP => VirtualKey::Help,
            virtual_key::COLON => VirtualKey::Colon,
            virtual_key::PLUS => VirtualKey::Plus,
            virtual_key::COMMA => VirtualKey::Comma,
            virtual_key::MINUS => VirtualKey::Minus,
            virtual_key::PERIOD => VirtualKey::Period,
            virtual_key::SLASH => VirtualKey::Slash,
            virtual_key::TILDE => VirtualKey::Tilde,
            virtual_key::LEFT_BRACKET => VirtualKey::LeftBracket,
            virtual_key::BACKSLASH => VirtualKey::Backslash,
            virtual_key::RIGHT_BRACKET => VirtualKey::RightBracket,
            virtual_key::QUOTE => VirtualKey::Quote,
            virtual_key::VOLUME_MUTE => VirtualKey::VolumeMute,
            virtual_key::VOLUME_DOWN => VirtualKey::VolumeDown,
            virtual_key::VOLUME_UP => VirtualKey::VolumeUp,
            virtual_key::MEDIA_NEXT_TRACK => VirtualKey::MediaNextTrack,
            virtual_key::MEDIA_PREV_TRACK => VirtualKey::MediaPreviousTrack,
            virtual_key::MEDIA_STOP => VirtualKey::MediaStop,
            virtual_key::MEDIA_PLAY_PAUSE => VirtualKey::MediaPlayPause,
            _ => VirtualKey::Unrecognized(value),
        }
    }

    /// The native code of a key.
    pub fn to_raw(self) -> (value: u32)
        ensures
            value == self.spec_to_raw(),
            self.wf() ==> Self::spec_from_raw(value) == self,
    {
        match self {
            VirtualKey::A => virtual_key::A,
            VirtualKey::B => virtual_key::B,
            VirtualKey::C => virtual_key::C,
            VirtualKey::D => virtual_key::D,
            VirtualKey::E => virtual_key::E,
            VirtualKey::F => virtual_key::F,
            VirtualKey::G => virtual_key::G,
            VirtualKey::H => virtual_key::H,
            VirtualKey::I => virtual_key::I,
            VirtualKey::J => virtual_key::J,
            VirtualKey::K => virtual_key::K,
            VirtualKey::L => virtual_key::L,
            VirtualKey::M => virtual_key::M,
            VirtualKey::N => virtual_key::N,
            VirtualKey::O => virtual_key::O,
            VirtualKey::P => virtual_key::P,
            VirtualKey::Q => virtual_key::Q,
            VirtualKey::R => virtual_key::R,
            VirtualKey::S => virtual_key::S,
            VirtualKey::T => virtual_key::T,
            VirtualKey::U => virtual_key::U,
            VirtualKey::V => virtual_key::V,
            VirtualKey::W => virtual_key::W,
            VirtualKey::X => virtual_key::X,
            VirtualKey::Y => virtual_key::Y,
            VirtualKey::Z => virtual_key::Z,
            VirtualKey::Num0 => virtual_key::NUM0,
            VirtualKey::Num1 => virtual_key::NUM1,
            VirtualKey::Num2 => virtual_key::NUM2,
            VirtualKey::Num3 => virtual_key::NUM3,
            VirtualKey::Num4 => virtual_key::NUM4,
            VirtualKey::Num5 => virtual_key::NUM5,
            VirtualKey::Num6 => virtual_key::NUM6,
            VirtualKey::Num7 => virtual_key::NUM7,
            VirtualKey::Num8 => virtual_key::NUM8,
            VirtualKey::Num9 => virtual_key::NUM9,
            VirtualKey::Numpad0 => virtual_key::NUMPAD0,
            VirtualKey::Numpad1 => virtual_key::NUMPAD1,
            VirtualKey::Numpad2 => virtual_key::NUMPAD2,
            VirtualKey::Numpad3 => virtual_key::NUMPAD3,
            VirtualKey::Numpad4 => virtual_key::NUMPAD4,
            VirtualKey::Numpad5 => virtual_key::NUMPAD5,
            VirtualKey::Numpad6 => virtual_key::NUMPAD6,
            VirtualKey::Numpad7 => virtual_key::NUMPAD7,
            VirtualKey::Numpad8 => virtual_key::NUMPAD8,
            VirtualKey::Numpad9 => virtual_key::NUMPAD9,
            VirtualKey::NumpadMultiply => virtual_key::NUMPAD_MULTIPLY,
            VirtualKey::NumpadAdd => virtual_key::NUMPAD_ADD,
            VirtualKey::NumpadSeparator => virtual_key::NUMPAD_SEPARATOR,
            VirtualKey::NumpadSubtract => virtual_key::NUMPAD_SUBTRACT,
            VirtualKey::NumpadDecimal => virtual_key::NUMPAD_DECIMAL,
            VirtualKey::NumpadDivide => virtual_key::NUMPAD_DIVIDE,
            VirtualKey::Backspace => virtual_key::BACKSPACE,
            VirtualKey::Tab => virtual_key::TAB,
            VirtualKey::Enter => virtual_key::ENTER,
            VirtualKey::F1 => virtual_key::F1,
            VirtualKey::F2 => virtual_key::F2,
            VirtualKey::F3 => virtual_key::F3,
            VirtualKey::F4 => virtual_key::F4,
            VirtualKey::F5 => virtual_key::F5,
            VirtualKey::F6 => virtual_key::F6,
            VirtualKey::F7 => virtual_key::F7,
            VirtualKey::F8 => virtual_key::F8,
            VirtualKey::F9 => virtual_key::F9,
            VirtualKey::F10 => virtual_key::F10,
            VirtualKey::F11 => virtual_key::F11,
            VirtualKey::F12 => virtual_key::F12,
            VirtualKey::F13 => virtual_key::F13,
            VirtualKey::F14 => virtual_key::F14,
            VirtualKey::F15 => virtual_key::F15,
            VirtualKey::F16 => virtual_key::F16,
            VirtualKey::F17 => virtual_key::F17,
            VirtualKey::F18 => virtual_key::F18,
            VirtualKey::F19 => virtual_key::F19,
            VirtualKey::F20 => virtual_key::F20,
            VirtualKey::F21 => virtual_key::F21,
            VirtualKey::F22 => virtual_key::F22,
            VirtualKey::F23 => virtual_key::F23,
            VirtualKey::F24 => virtual_key::F24,
            VirtualKey::Shift => virtual_key::SHIFT,
            VirtualKey::Control => virtual_key::CONTROL,
            VirtualKey::Alt => virtual_key::ALT,
            VirtualKey::LeftShift => virtual_key::LEFT_SHIFT,
            VirtualKey::RightShift => virtual_key::RIGHT_SHIFT,
            VirtualKey::LeftControl => virtual_key::LEFT_CONTROL,
            VirtualKey::RightControl => virtual_key::RIGHT_CONTROL,
            VirtualKey::LeftAlt => virtual_key::LEFT_ALT,
            VirtualKey::RightAlt => virtual_key::RIGHT_ALT,
            VirtualKey::LeftSuper => virtual_key::LEFT_SUPER,
            VirtualKey::RightSuper => virtual_key::RIGHT_SUPER,
            VirtualKey::Menu => virtual_key::MENU,
            VirtualKey::CapsLock => virtual_key::CAPS_LOCK,
            VirtualKey::NumLock => virtual_key::NUM_LOCK,
            VirtualKey::ScrollLock => virtual_key::SCROLL_LOCK,
            VirtualKey::Pause => virtual_key::PAUSE,
            VirtualKey::Escape => virtual_key::ESCAPE,
            VirtualKey::Space => virtual_key::SPACE,
            VirtualKey::Insert => virtual_key::INSERT,
            VirtualKey::Delete => virtual_key::DELETE,
            VirtualKey::PageUp => virtual_key::PAGE_UP,
            VirtualKey::PageDown => virtual_key::PAGE_DOWN,
            VirtualKey::End => virtual_key::END,
            VirtualKey::Home => virtual_key::HOME,
            VirtualKey::Left => virtual_key::LEFT,
            VirtualKey::Up => virtual_key::UP,
            VirtualKey::Right => virtual_key::RIGHT,
            VirtualKey::Down => virtual_key::DOWN,
            VirtualKey::Clear => virtual_key::CLEAR,
            VirtualKey::Select => virtual_key::SELECT,
            VirtualKey::Print => virtual_key::PRINT,
            VirtualKey::Execute => virtual_key::EXECUTE,
            VirtualKey::PrintScreen => virtual_key::PRINT_SCREEN,
            VirtualKey::Help => virtual_key::HELP,
            VirtualKey::Colon => virtual_key::COLON,
            VirtualKey::Plus => virtual_key::PLUS,
            VirtualKey::Comma => virtual_key::COMMA,
            VirtualKey::Minus => virtual_key::MINUS,
            VirtualKey::Period => virtual_key::PERIOD,
            VirtualKey::Slash => virtual_key::SLASH,
            VirtualKey::Tilde => virtual_key::TILDE,
            VirtualKey::LeftBracket => virtual_key::LEFT_BRACKET,
            VirtualKey::Backslash => virtual_key::BACKSLASH,
            VirtualKey::RightBracket => virtual_key::RIGHT_BRACKET,
            VirtualKey::Quote => virtual_key::QUOTE,
            VirtualKey::VolumeMute => virtual_key::VOLUME_MUTE,
            VirtualKey::VolumeDown => virtual_key::VOLUME_DOWN,
            VirtualKey::VolumeUp => virtual_key::VOLUME_UP,
            VirtualKey::MediaNextTrack => virtual_key::MEDIA_NEXT_TRACK,
            VirtualKey::MediaPreviousTrack => virtual_key::MEDIA_PREV_TRACK,
            VirtualKey::MediaStop => virtual_key::MEDIA_STOP,
            VirtualKey::MediaPlayPause => virtual_key::MEDIA_PLAY_PAUSE,
            VirtualKey::Unrecognized(code) => code,
        }
    }

    /// Whether the key has a name.
    pub fn is_named(self) -> (named: bool)
        ensures
            named == self.spec_is_named(),
    {
        match self {
            VirtualKey::Unrecognized(_) => false,
            _ => true,
        }
    }
}

} // verus!
