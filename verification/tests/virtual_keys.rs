use winman::input::enums::VirtualKey;

fn named_keys() -> Vec<(VirtualKey, u32)> {
    vec![
        (VirtualKey::A, 0x41),
        (VirtualKey::B, 0x42),
        (VirtualKey::C, 0x43),
        (VirtualKey::D, 0x44),
        (VirtualKey::E, 0x45),
        (VirtualKey::F, 0x46),
        (VirtualKey::G, 0x47),
        (VirtualKey::H, 0x48),
        (VirtualKey::I, 0x49),
        (VirtualKey::J, 0x4A),
        (VirtualKey::K, 0x4B),
        (VirtualKey::L, 0x4C),
        (VirtualKey::M, 0x4D),
        (VirtualKey::N, 0x4E),
        (VirtualKey::O, 0x4F),
        (VirtualKey::P, 0x50),
        (VirtualKey::Q, 0x51),
        (VirtualKey::R, 0x52),
        (VirtualKey::S, 0x53),
        (VirtualKey::T, 0x54),
        (VirtualKey::U, 0x55),
        (VirtualKey::V, 0x56),
        (VirtualKey::W, 0x57),
        (VirtualKey::X, 0x58),
        (VirtualKey::Y, 0x59),
        (VirtualKey::Z, 0x5A),
        (VirtualKey::Num0, 0x30),
        (VirtualKey::Num1, 0x31),
        (VirtualKey::Num2, 0x32),
        (VirtualKey::Num3, 0x33),
        (VirtualKey::Num4, 0x34),
        (VirtualKey::Num5, 0x35),
        (VirtualKey::Num6, 0x36),
        (VirtualKey::Num7, 0x37),
        (VirtualKey::Num8, 0x38),
        (VirtualKey::Num9, 0x39),
        (VirtualKey::Numpad0, 0x60),
        (VirtualKey::Numpad1, 0x61),
        (VirtualKey::Numpad2, 0x62),
        (VirtualKey::Numpad3, 0x63),
        (VirtualKey::Numpad4, 0x64),
        (VirtualKey::Numpad5, 0x65),
        (VirtualKey::Numpad6, 0x66),
        (VirtualKey::Numpad7, 0x67),
        (VirtualKey::Numpad8, 0x68),
        (VirtualKey::Numpad9, 0x69),
        (VirtualKey::NumpadMultiply, 0x6A),
        (VirtualKey::NumpadAdd, 0x6B),
        (VirtualKey::NumpadSeparator, 0x6C),
        (VirtualKey::NumpadSubtract, 0x6D),
        (VirtualKey::NumpadDecimal, 0x6E),
        (VirtualKey::NumpadDivide, 0x6F),
        (VirtualKey::Backspace, 0x08),
        (VirtualKey::Tab, 0x09),
        (VirtualKey::Enter, 0x0D),
        (VirtualKey::F1, 0x70),
        (VirtualKey::F2, 0x71),
        (VirtualKey::F3, 0x72),
        (VirtualKey::F4, 0x73),
        (VirtualKey::F5, 0x74),
        (VirtualKey::F6, 0x75),
        (VirtualKey::F7, 0x76),
        (VirtualKey::F8, 0x77),
        (VirtualKey::F9, 0x78),
        (VirtualKey::F10, 0x79),
        (VirtualKey::F11, 0x7A),
        (VirtualKey::F12, 0x7B),
        (VirtualKey::F13, 0x7C),
        (VirtualKey::F14, 0x7D),
        (VirtualKey::F15, 0x7E),
        (VirtualKey::F16, 0x7F),
        (VirtualKey::F17, 0x80),
        (VirtualKey::F18, 0x81),
        (VirtualKey::F19, 0x82),
        (VirtualKey::F20, 0x83),
        (VirtualKey::F21, 0x84),
        (VirtualKey::F22, 0x85),
        (VirtualKey::F23, 0x86),
        (VirtualKey::F24, 0x87),
        (VirtualKey::Shift, 0x10),
        (VirtualKey::Control, 0x11),
        (VirtualKey::Alt, 0x12),
        (VirtualKey::LeftShift, 0xA0),
        (VirtualKey::RightShift, 0xA1),
        (VirtualKey::LeftControl, 0xA2),
        (VirtualKey::RightControl, 0xA3),
        (VirtualKey::LeftAlt, 0xA4),
        (VirtualKey::RightAlt, 0xA5),
        (VirtualKey::LeftSuper, 0x5B),
        (VirtualKey::RightSuper, 0x5C),
        (VirtualKey::Menu, 0x5D),
        (VirtualKey::CapsLock, 0x14),
        (VirtualKey::NumLock, 0x90),
        (VirtualKey::ScrollLock, 0x91),
        (VirtualKey::Pause, 0x13),
        (VirtualKey::Escape, 0x1B),
        (VirtualKey::Space, 0x20),
        (VirtualKey::Insert, 0x2D),
        (VirtualKey::Delete, 0x2E),
        (VirtualKey::PageUp, 0x21),
        (VirtualKey::PageDown, 0x22),
        (VirtualKey::End, 0x23),
        (VirtualKey::Home, 0x24),
        (VirtualKey::Left, 0x25),
        (VirtualKey::Up, 0x26),
        (VirtualKey::Right, 0x27),
        (VirtualKey::Down, 0x28),
        (VirtualKey::Clear, 0x0C),
        (VirtualKey::Select, 0x29),
        (VirtualKey::Print, 0x2A),
        (VirtualKey::Execute, 0x2B),
        (VirtualKey::PrintScreen, 0x2C),
        (VirtualKey::Help, 0x2F),
        (VirtualKey::Colon, 0xBA),
        (VirtualKey::Plus, 0xBB),
        (VirtualKey::Comma, 0xBC),
        (VirtualKey::Minus, 0xBD),
        (VirtualKey::Period, 0xBE),
        (VirtualKey::Slash, 0xBF),
        (VirtualKey::Tilde, 0xC0),
        (VirtualKey::LeftBracket, 0xDB),
        (VirtualKey::Backslash, 0xDC),
        (VirtualKey::RightBracket, 0xDD),
        (VirtualKey::Quote, 0xDE),
        (VirtualKey::VolumeMute, 0xAD),
        (VirtualKey::VolumeDown, 0xAE),
        (VirtualKey::VolumeUp, 0xAF),
        (VirtualKey::MediaNextTrack, 0xB0),
        (VirtualKey::MediaPreviousTrack, 0xB1),
        (VirtualKey::MediaStop, 0xB2),
        (VirtualKey::MediaPlayPause, 0xB3),
    ]
}

#[test]
fn the_table_names_131_keys() {
    assert_eq!(named_keys().len(), 131);
}

#[test]
fn named_keys_round_trip_through_their_codes() {
    for (key, code) in named_keys() {
        assert_eq!(key.to_raw(), code);
        assert_eq!(VirtualKey::from_raw(code), key);
        assert!(key.is_named());
    }
}

#[test]
fn every_code_round_trips() {
    for code in 0u32..=0x1_0000 {
        let key = VirtualKey::from_raw(code);
        assert_eq!(key.to_raw(), code);
        assert_eq!(VirtualKey::from_raw(key.to_raw()), key);
    }
    for code in [0x7FFF_FFFFu32, 0x8000_0000, u32::MAX] {
        assert_eq!(VirtualKey::from_raw(code), VirtualKey::Unrecognized(code));
        assert_eq!(VirtualKey::from_raw(code).to_raw(), code);
    }
}

#[test]
fn codes_without_a_name_decode_to_unrecognized() {
    let named: Vec<u32> = named_keys().iter().map(|(_, code)| *code).collect();
    let mut unnamed = 0;
    for code in 0u32..=0xFF {
        let key = VirtualKey::from_raw(code);
        if named.contains(&code) {
            assert!(key.is_named());
            assert_ne!(key, VirtualKey::Unrecognized(code));
        } else {
            assert_eq!(key, VirtualKey::Unrecognized(code));
            assert!(!key.is_named());
            unnamed += 1;
        }
    }
    assert_eq!(unnamed, 256 - 131);
}

#[test]
fn some_codes_by_hand() {
    assert_eq!(VirtualKey::from_raw(0x41), VirtualKey::A);
    assert_eq!(VirtualKey::from_raw(0x5A), VirtualKey::Z);
    assert_eq!(VirtualKey::from_raw(0x30), VirtualKey::Num0);
    assert_eq!(VirtualKey::from_raw(0x0D), VirtualKey::Enter);
    assert_eq!(VirtualKey::from_raw(0x1B), VirtualKey::Escape);
    assert_eq!(VirtualKey::from_raw(0x87), VirtualKey::F24);
    assert_eq!(VirtualKey::from_raw(0xDE), VirtualKey::Quote);
    assert_eq!(VirtualKey::from_raw(0x5F), VirtualKey::Unrecognized(0x5F));
    assert_eq!(VirtualKey::from_raw(0x00), VirtualKey::Unrecognized(0));
    assert_eq!(VirtualKey::Space.to_raw(), 0x20);
    assert_eq!(VirtualKey::Unrecognized(0x07).to_raw(), 0x07);
}
