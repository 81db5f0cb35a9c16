//! The native code of every key that has a name.

use vstd::prelude::*;

verus! {

/// The `A` key.
pub const A: u32 = 0x41;

/// The `B` key.
pub const B: u32 = 0x42;

/// The `C` key.
pub const C: u32 = 0x43;

/// The `D` key.
pub const D: u32 = 0x44;

/// The `E` key.
pub const E: u32 = 0x45;

/// The `F` key.
pub const F: u32 = 0x46;

/// The `G` key.
pub const G: u32 = 0x47;

/// The `H` key.
pub const H: u32 = 0x48;

/// The `I` key.
pub const I: u32 = 0x49;

/// The `J` key.
pub const J: u32 = 0x4A;

/// The `K` key.
pub const K: u32 = 0x4B;

/// The `L` key.
pub const L: u32 = 0x4C;

/// The `M` key.
pub const M: u32 = 0x4D;

/// The `N` key.
pub const N: u32 = 0x4E;

/// The `O` key.
pub const O: u32 = 0x4F;

/// The `P` key.
pub const P: u32 = 0x50;

/// The `Q` key.
pub const Q: u32 = 0x51;

/// The `R` key.
pub const R: u32 = 0x52;

/// The `S` key.
pub const S: u32 = 0x53;

/// The `T` key.
pub const T: u32 = 0x54;

/// The `U` key.
pub const U: u32 = 0x55;

/// The `V` key.
pub const V: u32 = 0x56;

/// The `W` key.
pub const W: u32 = 0x57;

/// The `X` key.
pub const X: u32 = 0x58;

/// The `Y` key.
pub const Y: u32 = 0x59;

/// The `Z` key.
pub const Z: u32 = 0x5A;

/// The `0` key of the main block.
pub const NUM0: u32 = 0x30;

/// The `1` key of the main block.
pub const NUM1: u32 = 0x31;

/// The `2` key of the main block.
pub const NUM2: u32 = 0x32;

/// The `3` key of the main block.
pub const NUM3: u32 = 0x33;

/// The `4` key of the main block.
pub const NUM4: u32 = 0x34;

/// The `5` key of the main block.
pub const NUM5: u32 = 0x35;

/// The `6` key of the main block.
pub const NUM6: u32 = 0x36;

/// The `7` key of the main block.
pub const NUM7: u32 = 0x37;

/// The `8` key of the main block.
pub const NUM8: u32 = 0x38;

/// The `9` key of the main block.
pub const NUM9: u32 = 0x39;

/// The `0` key of the numeric keypad.
pub const NUMPAD0: u32 = 0x60;

/// The `1` key of the numeric keypad.
pub const NUMPAD1: u32 = 0x61;

/// The `2` key of the numeric keypad.
pub const NUMPAD2: u32 = 0x62;

/// The `3` key of the numeric keypad.
pub const NUMPAD3: u32 = 0x63;

/// The `4` key of the numeric keypad.
pub const NUMPAD4: u32 = 0x64;

/// The `5` key of the numeric keypad.
pub const NUMPAD5: u32 = 0x65;

/// The `6` key of the numeric keypad.
pub const NUMPAD6: u32 = 0x66;

/// The `7` key of the numeric keypad.
pub const NUMPAD7: u32 = 0x67;

/// The `8` key of the numeric keypad.
pub const NUMPAD8: u32 = 0x68;

/// The `9` key of the numeric keypad.
pub const NUMPAD9: u32 = 0x69;

/// The multiply key of the numeric keypad.
pub const NUMPAD_MULTIPLY: u32 = 0x6A;

/// The add key of the numeric keypad.
pub const NUMPAD_ADD: u32 = 0x6B;

/// The separator key of the numeric keypad.
pub const NUMPAD_SEPARATOR: u32 = 0x6C;

/// The subtract key of the numeric keypad.
pub const NUMPAD_SUBTRACT: u32 = 0x6D;

/// The decimal key of the numeric keypad.
pub const NUMPAD_DECIMAL: u32 = 0x6E;

/// The divide key of the numeric keypad.
pub const NUMPAD_DIVIDE: u32 = 0x6F;

/// The backspace key.
pub const BACKSPACE: u32 = 0x08;

/// The tab key.
pub const TAB: u32 = 0x09;

/// The enter key.
pub const ENTER: u32 = 0x0D;

/// The `F1` function key.
pub const F1: u32 = 0x70;

/// The `F2` function key.
pub const F2: u32 = 0x71;

/// The `F3` function key.
pub const F3: u32 = 0x72;

/// The `F4` function key.
pub const F4: u32 = 0x73;

/// The `F5` function key.
pub const F5: u32 = 0x74;

/// The `F6` function key.
pub const F6: u32 = 0x75;

/// The `F7` function key.
pub const F7: u32 = 0x76;

/// The `F8` function key.
pub const F8: u32 = 0x77;

/// The `F9` function key.
pub const F9: u32 = 0x78;

/// The `F10` function key.
pub const F10: u32 = 0x79;

/// The `F11` function key.
pub const F11: u32 = 0x7A;

/// The `F12` function key.
pub const F12: u32 = 0x7B;

/// The `F13` function key.
pub const F13: u32 = 0x7C;

/// The `F14` function key.
pub const F14: u32 = 0x7D;

/// The `F15` function key.
pub const F15: u32 = 0x7E;

/// The `F16` function key.
pub const F16: u32 = 0x7F;

/// The `F17` function key.
pub const F17: u32 = 0x80;

/// The `F18` function key.
pub const F18: u32 = 0x81;

/// The `F19` function key.
pub const F19: u32 = 0x82;

/// The `F20` function key.
pub const F20: u32 = 0x83;

/// The `F21` function key.
pub const F21: u32 = 0x84;

/// The `F22` function key.
pub const F22: u32 = 0x85;

/// The `F23` function key.
pub const F23: u32 = 0x86;

/// The `F24` function key.
pub const F24: u32 = 0x87;

/// Either shift key.
pub const SHIFT: u32 = 0x10;

/// Either control key.
pub const CONTROL: u32 = 0x11;

/// Either alt key.
pub const ALT: u32 = 0x12;

/// The left shift key.
pub const LEFT_SHIFT: u32 = 0xA0;

/// The right shift key.
pub const RIGHT_SHIFT: u32 = 0xA1;

/// The left control key.
pub const LEFT_CONTROL: u32 = 0xA2;

/// The right control key.
pub const RIGHT_CONTROL: u32 = 0xA3;

/// The left alt key.
pub const LEFT_ALT: u32 = 0xA4;

/// The right alt key.
pub const RIGHT_ALT: u32 = 0xA5;

/// The left super key.
pub const LEFT_SUPER: u32 = 0x5B;

/// The right super key.
pub const RIGHT_SUPER: u32 = 0x5C;

/// The application menu key.
pub const MENU: u32 = 0x5D;

/// The caps lock key.
pub const CAPS_LOCK: u32 = 0x14;

/// The num lock key.
pub const NUM_LOCK: u32 = 0x90;

/// The scroll lock key.
pub const SCROLL_LOCK: u32 = 0x91;

/// The pause key.
pub const PAUSE: u32 = 0x13;

/// The escape key.
pub const ESCAPE: u32 = 0x1B;

/// The space bar.
pub const SPACE: u32 = 0x20;

/// The insert key.
pub const INSERT: u32 = 0x2D;

/// The delete key.
pub const DELETE: u32 = 0x2E;

/// The page up key.
pub const PAGE_UP: u32 = 0x21;

/// The page down key.
pub const PAGE_DOWN: u32 = 0x22;

/// The end key.
pub const END: u32 = 0x23;

/// The home key.
pub const HOME: u32 = 0x24;

/// The left arrow key.
pub const LEFT: u32 = 0x25;

/// The up arrow key.
pub const UP: u32 = 0x26;

/// The right arrow key.
pub const RIGHT: u32 = 0x27;

/// The down arrow key.
pub const DOWN: u32 = 0x28;

/// The clear key.
pub const CLEAR: u32 = 0x0C;

/// The select key.
pub const SELECT: u32 = 0x29;

/// The print key.
pub const PRINT: u32 = 0x2A;

/// The execute key.
pub const EXECUTE: u32 = 0x2B;

/// The print screen key.
pub const PRINT_SCREEN: u32 = 0x2C;

/// The help key.
pub const HELP: u32 = 0x2F;

/// The `;:` key.
pub const COLON: u32 = 0xBA;

/// The `=+` key.
pub const PLUS: u32 = 0xBB;

/// The `,<` key.
pub const COMMA: u32 = 0xBC;

/// The `-_` key.
pub const MINUS: u32 = 0xBD;

/// The `.>` key.
pub const PERIOD: u32 = 0xBE;

/// The `/?` key.
pub const SLASH: u32 = 0xBF;

/// The `` `~ `` key.
pub const TILDE: u32 = 0xC0;

/// The `[{` key.
pub const LEFT_BRACKET: u32 = 0xDB;

/// The `\\|` key.
pub const BACKSLASH: u32 = 0xDC;

/// The `]}` key.
pub const RIGHT_BRACKET: u32 = 0xDD;

/// The `'"` key.
pub const QUOTE: u32 = 0xDE;

/// The volume mute key.
pub const VOLUME_MUTE: u32 = 0xAD;

/// The volume down key.
pub const VOLUME_DOWN: u32 = 0xAE;

/// The volume up key.
pub const VOLUME_UP: u32 = 0xAF;

/// The next track key.
pub const MEDIA_NEXT_TRACK: u32 = 0xB0;

/// The previous track key.
pub const MEDIA_PREV_TRACK: u32 = 0xB1;

/// The stop media key.
pub const MEDIA_STOP: u32 = 0xB2;

/// The play or pause media key.
pub const MEDIA_PLAY_PAUSE: u32 = 0xB3;

} // verus!
