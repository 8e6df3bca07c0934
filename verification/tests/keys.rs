use keymatrix::keys::KeyboardKey;

/// Every variant beside the usage code that the HID standard fixes for it.
fn code_table() -> Vec<(KeyboardKey, u8)> {
    vec![
        (KeyboardKey::NoKey, 0x00),
        (KeyboardKey::ErrorRollOver, 0x01),
        (KeyboardKey::ErrorPostFail, 0x02),
        (KeyboardKey::ErrorUndefined, 0x03),
        (KeyboardKey::PhyA, 0x04),
        (KeyboardKey::PhyB, 0x05),
        (KeyboardKey::PhyC, 0x06),
        (KeyboardKey::PhyD, 0x07),
        (KeyboardKey::PhyE, 0x08),
        (KeyboardKey::PhyF, 0x09),
        (KeyboardKey::PhyG, 0x0a),
        (KeyboardKey::PhyH, 0x0b),
        (KeyboardKey::PhyI, 0x0c),
        (KeyboardKey::PhyJ, 0x0d),
        (KeyboardKey::PhyK, 0x0e),
        (KeyboardKey::PhyL, 0x0f),
        (KeyboardKey::PhyM, 0x10),
        (KeyboardKey::PhyN, 0x11),
        (KeyboardKey::PhyO, 0x12),
        (KeyboardKey::PhyP, 0x13),
        (KeyboardKey::PhyQ, 0x14),
        (KeyboardKey::PhyR, 0x15),
        (KeyboardKey::PhyS, 0x16),
        (KeyboardKey::PhyT, 0x17),
        (KeyboardKey::PhyU, 0x18),
        (KeyboardKey::PhyV, 0x19),
        (KeyboardKey::PhyW, 0x1a),
        (KeyboardKey::PhyX, 0x1b),
        (KeyboardKey::PhyY, 0x1c),
        (KeyboardKey::PhyZ, 0x1d),
        (KeyboardKey::Phy1, 0x1e),
        (KeyboardKey::Phy2, 0x1f),
        (KeyboardKey::Phy3, 0x20),
        (KeyboardKey::Phy4, 0x21),
        (KeyboardKey::Phy5, 0x22),
        (KeyboardKey::Phy6, 0x23),
        (KeyboardKey::Phy7, 0x24),
        (KeyboardKey::Phy8, 0x25),
        (KeyboardKey::Phy9, 0x26),
        (KeyboardKey::Phy0, 0x27),
        (KeyboardKey::Enter, 0x28),
        (KeyboardKey::Escape, 0x29),
        (KeyboardKey::Backspace, 0x2a),
        (KeyboardKey::Tab, 0x2b),
        (KeyboardKey::Space, 0x2c),
        (KeyboardKey::PhyHyphen, 0x2d),
        (KeyboardKey::PhyEqual, 0x2e),
        (KeyboardKey::PhyOpenBrace, 0x2f),
        (KeyboardKey::PhyCloseBrace, 0x30),
        (KeyboardKey::PhyBackslash, 0x31),
        (KeyboardKey::PhyHash, 0x32),
        (KeyboardKey::PhySemicolon, 0x33),
        (KeyboardKey::PhyQuote, 0x34),
        (KeyboardKey::PhyGrave, 0x35),
        (KeyboardKey::PhyComma, 0x36),
        (KeyboardKey::PhyPeriod, 0x37),
        (KeyboardKey::PhySlash, 0x38),
        (KeyboardKey::CapsLock, 0x39),
        (KeyboardKey::F1, 0x3a),
        (KeyboardKey::F2, 0x3b),
        (KeyboardKey::F3, 0x3c),
        (KeyboardKey::F4, 0x3d),
        (KeyboardKey::F5, 0x3e),
        (KeyboardKey::F6, 0x3f),
        (KeyboardKey::F7, 0x40),
        (KeyboardKey::F8, 0x41),
        (KeyboardKey::F9, 0x42),
        (KeyboardKey::F10, 0x43),
        (KeyboardKey::F11, 0x44),
        (KeyboardKey::F12, 0x45),
        (KeyboardKey::PrintScreen, 0x46),
        (KeyboardKey::ScrollLock, 0x47),
        (KeyboardKey::Pause, 0x48),
        (KeyboardKey::Insert, 0x49),
        (KeyboardKey::Home, 0x4a),
        (KeyboardKey::PageUp, 0x4b),
        (KeyboardKey::Delete, 0x4c),
        (KeyboardKey::End, 0x4d),
        (KeyboardKey::PageDown, 0x4e),
        (KeyboardKey::ArrowRight, 0x4f),
        (KeyboardKey::ArrowLeft, 0x50),
        (KeyboardKey::ArrowDown, 0x51),
        (KeyboardKey::ArrowUp, 0x52),
        (KeyboardKey::NumLock, 0x53),
        (KeyboardKey::KeypadDivide, 0x54),
        (KeyboardKey::KeypadMultiply, 0x55),
        (KeyboardKey::KeypadMinus, 0x56),
        (KeyboardKey::KeypadPlus, 0x57),
        (KeyboardKey::KeypadEnter, 0x58),
        (KeyboardKey::Keypad1, 0x59),
        (KeyboardKey::Keypad2, 0x5a),
        (KeyboardKey::Keypad3, 0x5b),
        (KeyboardKey::Keypad4, 0x5c),
        (KeyboardKey::Keypad5, 0x5d),
        (KeyboardKey::Keypad6, 0x5e),
        (KeyboardKey::Keypad7, 0x5f),
        (KeyboardKey::Keypad8, 0x60),
        (KeyboardKey::Keypad9, 0x61),
        (KeyboardKey::Keypad0, 0x62),
        (KeyboardKey::KeypadPoint, 0x63),
        (KeyboardKey::PhysChevron, 0x64),
        (KeyboardKey::LegacyApplication, 0x65),
        (KeyboardKey::Power, 0x66),
        (KeyboardKey::KeypadEqual, 0x67),
        (KeyboardKey::F13, 0x68),
        (KeyboardKey::F14, 0x69),
        (KeyboardKey::F15, 0x6a),
        (KeyboardKey::F16, 0x6b),
        (KeyboardKey::F17, 0x6c),
        (KeyboardKey::F18, 0x6d),
        (KeyboardKey::F19, 0x6e),
        (KeyboardKey::F20, 0x6f),
        (KeyboardKey::F21, 0x70),
        (KeyboardKey::F22, 0x71),
        (KeyboardKey::F23, 0x72),
        (KeyboardKey::F24, 0x73),
        (KeyboardKey::Execute, 0x74),
        (KeyboardKey::Help, 0x75),
        (KeyboardKey::Menu, 0x76),
        (KeyboardKey::Select, 0x77),
        (KeyboardKey::Stop, 0x78),
        (KeyboardKey::Again, 0x79),
        (KeyboardKey::Undo, 0x7a),
        (KeyboardKey::Cut, 0x7b),
        (KeyboardKey::Copy, 0x7c),
        (KeyboardKey::Paste, 0x7d),
        (KeyboardKey::Find, 0x7e),
        (KeyboardKey::Mute, 0x7f),
        (KeyboardKey::VolumeUp, 0x80),
        (KeyboardKey::VolumeDown, 0x81),
        (KeyboardKey::LegacyLockingCapsLock, 0x82),
        (KeyboardKey::LegacyLockingNumLock, 0x83),
        (KeyboardKey::LegacyLockingScrollLock, 0x84),
        (KeyboardKey::KeypadBrazilianComma, 0x85),
        (KeyboardKey::LegacyKeypadEqual, 0x86),
        (KeyboardKey::International1, 0x87),
        (KeyboardKey::International2, 0x88),
        (KeyboardKey::International3, 0x89),
        (KeyboardKey::International4, 0x8a),
        (KeyboardKey::International5, 0x8b),
        (KeyboardKey::International6, 0x8c),
        (KeyboardKey::International7, 0x8d),
        (KeyboardKey::International8, 0x8e),
        (KeyboardKey::International9, 0x8f),
        (KeyboardKey::International10, 0x90),
        (KeyboardKey::International11, 0x91),
        (KeyboardKey::International12, 0x92),
        (KeyboardKey::International13, 0x93),
        (KeyboardKey::International14, 0x94),
        (KeyboardKey::International15, 0x95),
        (KeyboardKey::International16, 0x96),
        (KeyboardKey::International17, 0x97),
        (KeyboardKey::International18, 0x98),
        (KeyboardKey::EraseAlt, 0x99),
        (KeyboardKey::ControlLeft, 0xe0),
        (KeyboardKey::ShiftLeft, 0xe1),
        (KeyboardKey::AltLeft, 0xe2),
        (KeyboardKey::SuperLeft, 0xe3),
        (KeyboardKey::ControlRight, 0xe4),
        (KeyboardKey::ShiftRight, 0xe5),
        (KeyboardKey::AltRight, 0xe6),
        (KeyboardKey::SuperRight, 0xe7),
    ]
}

#[test]
fn spot_check_documented_codes() {
    assert_eq!(KeyboardKey::PhyA.code(), 0x04);
    assert_eq!(KeyboardKey::Enter.code(), 0x28);
    assert_eq!(KeyboardKey::Escape.code(), 0x29);
    assert_eq!(KeyboardKey::Space.code(), 0x2c);
    assert_eq!(KeyboardKey::ArrowUp.code(), 0x52);
    assert_eq!(KeyboardKey::ControlLeft.code(), 0xe0);
    assert_eq!(KeyboardKey::SuperRight.code(), 0xe7);
}

#[test]
fn no_key_code_is_zero() {
    assert_eq!(KeyboardKey::NoKey.code(), 0x00);
    assert_eq!(u8::from(KeyboardKey::NoKey), 0x00);
}

#[test]
fn default_key_is_no_key() {
    assert_eq!(KeyboardKey::default(), KeyboardKey::NoKey);
    assert_eq!(KeyboardKey::default().code(), 0x00);
}

#[test]
fn every_code_matches_the_standard() {
    for (key, expected) in code_table() {
        assert_eq!(key.code(), expected, "wrong code for {:?}", key);
        assert_eq!(u8::from(key), expected, "From disagrees with code for {:?}", key);
    }
}

#[test]
fn codes_are_pairwise_distinct() {
    let table = code_table();
    for (i, (a, _)) in table.iter().enumerate() {
        for (b, _) in table.iter().skip(i + 1) {
            assert_ne!(a.code(), b.code(), "{:?} and {:?} share a code", a, b);
        }
    }
}

#[test]
fn code_is_stable_across_calls() {
    for (key, _) in code_table() {
        let first = key.code();
        let again = key;
        assert_eq!(again.code(), first, "code of {:?} changed between calls", key);
        assert_eq!(key.code(), first);
    }
}

#[test]
fn equality_follows_the_variant() {
    assert_eq!(KeyboardKey::PhyA, KeyboardKey::PhyA);
    assert_ne!(KeyboardKey::PhyA, KeyboardKey::PhyB);
    assert_ne!(KeyboardKey::NoKey, KeyboardKey::ErrorRollOver);
}
