use winman::message::{
    decode_message, lparam_to_point, lparam_to_prev_key_state, lparam_to_size, wparam_char_code,
    wparam_to_vkey, wparam_to_wheel_delta, wparam_to_xkey, DecodeFailure, Message, WindowEvent,
};
use winman::win32;
use winman::win32::{lparam_hiword, lparam_loword, word_to_signed, wparam_hiword, wparam_loword};
use winman::{
    ButtonState, CharEvent, FocusChangedEvent, KeyEvent, KeyState, MouseButton, MouseButtonEvent,
    MouseMoveEvent, MouseWheelEvent, VirtualKey, WindowMovedEvent, WindowResizedEvent,
};

fn pack(x: i16, y: i16) -> isize {
    ((((y as u16) as u32) << 16) | ((x as u16) as u32)) as isize
}

#[test]
fn words_of_the_signed_parameter() {
    assert_eq!(lparam_loword(0x1234_5678), 0x5678);
    assert_eq!(lparam_hiword(0x1234_5678), 0x1234);
    assert_eq!(lparam_loword(-1), 0xFFFF);
    assert_eq!(lparam_hiword(-1), 0xFFFF);
    assert_eq!(lparam_loword(-65536), 0);
    assert_eq!(lparam_hiword(-65536), 0xFFFF);
    assert_eq!(lparam_loword(0), 0);
    assert_eq!(lparam_hiword(0), 0);
}

#[test]
fn words_of_the_unsigned_parameter() {
    assert_eq!(wparam_loword(0xABCD_EF01), 0xEF01);
    assert_eq!(wparam_hiword(0xABCD_EF01), 0xABCD);
    assert_eq!(wparam_loword(usize::MAX), 0xFFFF);
    assert_eq!(wparam_hiword(usize::MAX), 0xFFFF);
    assert_eq!(wparam_hiword(0x0001_0000), 1);
}

#[test]
fn bits_above_the_two_words_are_ignored() {
    if usize::BITS == 64 {
        let high: usize = 0xDEAD_BEEF << 32;
        assert_eq!(wparam_loword(high | 0x0002_0003), 3);
        assert_eq!(wparam_hiword(high | 0x0002_0003), 2);
        let wide = (high | 0x000A_FFFB) as isize;
        assert_eq!(lparam_to_point(wide), (-5, 10));
    }
}

#[test]
fn signed_reading_of_a_word() {
    assert_eq!(word_to_signed(0), 0);
    assert_eq!(word_to_signed(0x7FFF), 32767);
    assert_eq!(word_to_signed(0x8000), -32768);
    assert_eq!(word_to_signed(0xFFFF), -1);
    assert_eq!(word_to_signed(0xFFFB), -5);
}

#[test]
fn mouse_position_minus_five_ten() {
    let packed: isize = 0x000A_FFFB;
    assert_eq!(pack(-5, 10), packed);
    let (x, y) = lparam_to_point(packed);
    assert_eq!((x, y), (-5, 10));
    assert_eq!((f32::from(x), f32::from(y)), (-5.0_f32, 10.0_f32));
}

#[test]
fn every_corner_of_the_coordinate_range_decodes_exactly() {
    for x in [i16::MIN, -1, 0, 1, i16::MAX] {
        for y in [i16::MIN, -1, 0, 1, i16::MAX] {
            assert_eq!(lparam_to_point(pack(x, y)), (x, y));
            let (fx, fy) = lparam_to_point(pack(x, y));
            assert_eq!(f32::from(fx), x as f32);
            assert_eq!(f32::from(fy), y as f32);
        }
    }
}

#[test]
fn size_is_unsigned() {
    assert_eq!(lparam_to_size(0x0258_0320), (800, 600));
    assert_eq!(lparam_to_size(pack(-1, -2)), (0xFFFF, 0xFFFE));
    assert_eq!(lparam_to_size(0), (0, 0));
}

#[test]
fn previous_key_state_is_bit_30() {
    assert!(lparam_to_prev_key_state(1 << 30));
    assert!(!lparam_to_prev_key_state(0));
    assert!(!lparam_to_prev_key_state((1 << 29) | (1 << 31) | 1));
    assert!(lparam_to_prev_key_state(-1));
    assert!(!lparam_to_prev_key_state(!(1isize << 30)));
}

#[test]
fn key_down_is_press_or_repeat() {
    let press = decode_message(win32::WM_KEYDOWN, 0x41, 0x001E_0001);
    assert_eq!(
        press,
        Message::Event(WindowEvent::Key(KeyEvent::new(VirtualKey::A, KeyState::Press)))
    );
    let repeat = decode_message(win32::WM_KEYDOWN, 0x41, 0x401E_0001);
    assert_eq!(
        repeat,
        Message::Event(WindowEvent::Key(KeyEvent::new(VirtualKey::A, KeyState::Repeat)))
    );
}

#[test]
fn key_up_is_release_whatever_bit_30_says() {
    for lparam in [0isize, 1 << 30, -1, 0x401E_0001] {
        assert_eq!(
            decode_message(win32::WM_KEYUP, 0x0D, lparam),
            Message::Event(WindowEvent::Key(KeyEvent::new(VirtualKey::Enter, KeyState::Release)))
        );
    }
}

#[test]
fn key_without_a_name_is_delivered_unrecognized() {
    assert_eq!(wparam_to_vkey(0x07), Some(VirtualKey::Unrecognized(0x07)));
    assert_eq!(wparam_to_vkey(0x20), Some(VirtualKey::Space));
    assert_eq!(
        decode_message(win32::WM_KEYDOWN, 0xFF, 0),
        Message::Event(WindowEvent::Key(KeyEvent::new(
            VirtualKey::Unrecognized(0xFF),
            KeyState::Press
        )))
    );
}

#[test]
fn character_codes() {
    assert_eq!(wparam_char_code(0x41), Some('A'));
    assert_eq!(wparam_char_code(0), Some('\0'));
    assert_eq!(wparam_char_code(0xD7FF), Some('\u{D7FF}'));
    assert_eq!(wparam_char_code(0xD800), None);
    assert_eq!(wparam_char_code(0xDFFF), None);
    assert_eq!(wparam_char_code(0xE000), Some('\u{E000}'));
    assert_eq!(wparam_char_code(0x10FFFF), Some('\u{10FFFF}'));
    assert_eq!(wparam_char_code(0x110000), None);
    assert_eq!(wparam_char_code(0xFFFF_FFFF), None);
}

#[test]
fn character_message() {
    assert_eq!(
        decode_message(win32::WM_CHAR, 0xE9, 0),
        Message::Event(WindowEvent::Char(CharEvent::new('é', false)))
    );
    assert_eq!(
        decode_message(win32::WM_CHAR, 0x61, 1 << 30),
        Message::Event(WindowEvent::Char(CharEvent::new('a', true)))
    );
    assert_eq!(
        decode_message(win32::WM_CHAR, 0xD800, 0),
        Message::Malformed(DecodeFailure::InvalidCharacter(0xD800))
    );
}

#[test]
fn wheel_delta_is_the_signed_high_word() {
    assert_eq!(wparam_to_wheel_delta(0x0078_0000), 120);
    assert_eq!(wparam_to_wheel_delta(0xFF88_0000), -120);
    assert_eq!(wparam_to_wheel_delta(0x0000_FFFF), 0);
    assert_eq!(f32::from(wparam_to_wheel_delta(0xFF88_0008)), -120.0_f32);
}

#[test]
fn wheel_messages() {
    assert_eq!(
        decode_message(win32::WM_MOUSEWHEEL, 0x0078_0000, pack(3, -4)),
        Message::Event(WindowEvent::MouseWheel(MouseWheelEvent::new(120, 0, 3, -4)))
    );
    assert_eq!(
        decode_message(win32::WM_MOUSEHWHEEL, 0xFF88_0000, pack(-3, 4)),
        Message::Event(WindowEvent::MouseWheel(MouseWheelEvent::new(0, -120, -3, 4)))
    );
}

#[test]
fn extended_buttons() {
    assert_eq!(wparam_to_xkey(0x0001_0000), MouseButton::X1);
    assert_eq!(wparam_to_xkey(0x0002_0000), MouseButton::X2);
    assert_eq!(wparam_to_xkey(0x0001_0020), MouseButton::X1);
    assert_eq!(
        decode_message(win32::WM_XBUTTONDOWN, 0x0001_0000, pack(7, 8)),
        Message::Event(WindowEvent::MouseButton(MouseButtonEvent::new(
            MouseButton::X1,
            ButtonState::Press,
            7,
            8
        )))
    );
    assert_eq!(
        decode_message(win32::WM_XBUTTONUP, 0x0002_0000, pack(-7, -8)),
        Message::Event(WindowEvent::MouseButton(MouseButtonEvent::new(
            MouseButton::X2,
            ButtonState::Release,
            -7,
            -8
        )))
    );
}

#[test]
fn an_unknown_extended_button_is_no_button() {
    for which in [0u16, 3, 4, 0x8000, 0xFFFF] {
        let wparam = (which as usize) << 16;
        for msg in [win32::WM_XBUTTONDOWN, win32::WM_XBUTTONUP] {
            assert_eq!(
                decode_message(msg, wparam, pack(1, 1)),
                Message::Malformed(DecodeFailure::UnknownXButton(which))
            );
        }
    }
}

#[test]
fn plain_buttons() {
    let cases = [
        (win32::WM_LBUTTONDOWN, MouseButton::Left, ButtonState::Press),
        (win32::WM_LBUTTONUP, MouseButton::Left, ButtonState::Release),
        (win32::WM_RBUTTONDOWN, MouseButton::Right, ButtonState::Press),
        (win32::WM_RBUTTONUP, MouseButton::Right, ButtonState::Release),
        (win32::WM_MBUTTONDOWN, MouseButton::Middle, ButtonState::Press),
        (win32::WM_MBUTTONUP, MouseButton::Middle, ButtonState::Release),
    ];
    for (msg, button, state) in cases {
        assert_eq!(
            decode_message(msg, 0, pack(-5, 10)),
            Message::Event(WindowEvent::MouseButton(MouseButtonEvent::new(button, state, -5, 10)))
        );
    }
}

#[test]
fn window_and_focus_messages() {
    assert_eq!(decode_message(win32::WM_CREATE, 0, 0), Message::Create);
    assert_eq!(decode_message(win32::WM_CLOSE, 0, 0), Message::Close);
    assert_eq!(decode_message(win32::WM_DESTROY, 0, 0), Message::Destroy);
    assert_eq!(decode_message(win32::WM_PAINT, 0, 0), Message::Paint);
    assert_eq!(
        decode_message(win32::WM_MOVE, 0, pack(-20, 30)),
        Message::Event(WindowEvent::Moved(WindowMovedEvent::new(-20, 30)))
    );
    assert_eq!(
        decode_message(win32::WM_SIZE, 0, 0x0258_0320),
        Message::Event(WindowEvent::Resized(WindowResizedEvent::new(800, 600)))
    );
    assert_eq!(
        decode_message(win32::WM_SETFOCUS, 0, 0),
        Message::Event(WindowEvent::Focus(FocusChangedEvent::new(true)))
    );
    assert_eq!(
        decode_message(win32::WM_KILLFOCUS, 0, 0),
        Message::Event(WindowEvent::Focus(FocusChangedEvent::new(false)))
    );
    assert_eq!(
        decode_message(win32::WM_MOUSEMOVE, 0, pack(-5, 10)),
        Message::Event(WindowEvent::MouseMove(MouseMoveEvent::new(-5, 10)))
    );
}

#[test]
fn messages_that_are_not_handled() {
    for msg in [0u32, 0x0004, 0x0006, 0x0012, 0x0081, 0x0203, 0x0400, u32::MAX] {
        assert_eq!(decode_message(msg, 1, 1), Message::Other);
    }
}
