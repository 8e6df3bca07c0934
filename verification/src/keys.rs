//! The keycode space: every named key identity of the USB HID Keyboard/Keypad
//! usage page (page 0x07), each bound to its fixed usage code.

use vstd::prelude::*;

verus! {

/// One standardized key identity from the USB HID Keyboard/Keypad usage page
/// (see the published HID Usage Tables, usage IDs 0x00 through 0xe7).
///
/// Each variant carries exactly one fixed 8-bit usage code, given by
/// [`KeyboardKey::code`]; the mapping is injective, so two variants are equal
/// exactly when their codes are equal ([`lemma_code_injective`]).
///
/// `NoKey` denotes "no key": it is the default value of an unwired matrix cell
/// and is never produced by an actual keypress. The usage ranges that the
/// standard leaves reserved (such as 0x9a through 0xa4 and 0xb0 through 0xdd)
/// have no variant on purpose; the enumeration is open-ended, and callers that
/// handle raw codes must pass unknown codes through rather than assume this
/// list is complete.
#[non_exhaustive]
#[derive(Clone, Copy, Debug, PartialEq, Eq, Structural)]
pub enum KeyboardKey {
    NoKey,
    ErrorRollOver,
    ErrorPostFail,
    ErrorUndefined,
    PhyA,
    PhyB,
    PhyC,
    PhyD,
    PhyE,
    PhyF,
    PhyG,
    PhyH,
    PhyI,
    PhyJ,
    PhyK,
    PhyL,
    PhyM,
    PhyN,
    PhyO,
    PhyP,
    PhyQ,
    PhyR,
    PhyS,
    PhyT,
    PhyU,
    PhyV,
    PhyW,
    PhyX,
    PhyY,
    PhyZ,
    Phy1,
    Phy2,
    Phy3,
    Phy4,
    Phy5,
    Phy6,
    Phy7,
    Phy8,
    Phy9,
    Phy0,
    Enter,
    Escape,
    Backspace,
    Tab,
    Space,
    /// Hyphen or underscore in US layout, next to zero.
    PhyHyphen,
    /// Equal sign or plus in US layout, next to backspace.
    PhyEqual,
    /// Opening square bracket or opening brace in US layout, next to P.
    PhyOpenBrace,
    /// Closing square bracket or closing brace in US layout.
    PhyCloseBrace,
    /// Backslash or pipe on a US keyboard.
    PhyBackslash,
    /// Backslash or pipe in US layout on a non-US keyboard,
    /// hash or tilde on a GB keyboard, typically found near Enter.
    PhyHash,
    /// Semicolon or colon in US layout, next to L.
    PhySemicolon,
    /// Single or double quote in US layout, next to the semicolon.
    PhyQuote,
    /// Grave accent and tilde in US layout, at the start of the button row.
    PhyGrave,
    PhyComma,
    PhyPeriod,
    PhySlash,
    CapsLock,
    F1,
    F2,
    F3,
    F4,
    F5,
    F6,
    F7,
    F8,
    F9,
    F10,
    F11,
    F12,
    PrintScreen,
    ScrollLock,
    Pause,
    Insert,
    Home,
    PageUp,
    Delete,
    End,
    PageDown,
    ArrowRight,
    ArrowLeft,
    ArrowDown,
    ArrowUp,
    NumLock,
    KeypadDivide,
    KeypadMultiply,
    KeypadMinus,
    KeypadPlus,
    KeypadEnter,
    Keypad1,
    Keypad2,
    Keypad3,
    Keypad4,
    Keypad5,
    Keypad6,
    Keypad7,
    Keypad8,
    Keypad9,
    Keypad0,
    KeypadPoint,
    /// Backslash or pipe in US layout on a non-US keyboard,
    /// angle brackets on various other layouts, near Left Shift.
    PhysChevron,
    LegacyApplication,
    Power,
    KeypadEqual,
    F13,
    F14,
    F15,
    F16,
    F17,
    F18,
    F19,
    F20,
    F21,
    F22,
    F23,
    F24,
    Execute,
    Help,
    Menu,
    Select,
    Stop,
    Again,
    Undo,
    Cut,
    Copy,
    Paste,
    Find,
    Mute,
    VolumeUp,
    VolumeDown,
    LegacyLockingCapsLock,
    LegacyLockingNumLock,
    LegacyLockingScrollLock,
    KeypadBrazilianComma,
    LegacyKeypadEqual,
    International1,
    International2,
    International3,
    International4,
    International5,
    International6,
    International7,
    International8,
    International9,
    International10,
    International11,
    International12,
    International13,
    International14,
    International15,
    International16,
    International17,
    International18,
    EraseAlt,
    ControlLeft,
    ShiftLeft,
    AltLeft,
    SuperLeft,
    ControlRight,
    ShiftRight,
    AltRight,
    SuperRight,
}

impl KeyboardKey {
    /// The usage code of this key, as the HID standard fixes it.
    pub open spec fn code_spec(self) -> u8 {
        match self {
            KeyboardKey::NoKey => 0x00,
            KeyboardKey::ErrorRollOver => 0x01,
            KeyboardKey::ErrorPostFail => 0x02,
            KeyboardKey::ErrorUndefined => 0x03,
            KeyboardKey::PhyA => 0x04,
            KeyboardKey::PhyB => 0x05,
            KeyboardKey::PhyC => 0x06,
            KeyboardKey::PhyD => 0x07,
            KeyboardKey::PhyE => 0x08,
            KeyboardKey::PhyF => 0x09,
            KeyboardKey::PhyG => 0x0a,
            KeyboardKey::PhyH => 0x0b,
            KeyboardKey::PhyI => 0x0c,
            KeyboardKey::PhyJ => 0x0d,
            KeyboardKey::PhyK => 0x0e,
            KeyboardKey::PhyL => 0x0f,
            KeyboardKey::PhyM => 0x10,
            KeyboardKey::PhyN => 0x11,
            KeyboardKey::PhyO => 0x12,
            KeyboardKey::PhyP => 0x13,
            KeyboardKey::PhyQ => 0x14,
            KeyboardKey::PhyR => 0x15,
            KeyboardKey::PhyS => 0x16,
            KeyboardKey::PhyT => 0x17,
            KeyboardKey::PhyU => 0x18,
            KeyboardKey::PhyV => 0x19,
            KeyboardKey::PhyW => 0x1a,
            KeyboardKey::PhyX => 0x1b,
            KeyboardKey::PhyY => 0x1c,
            KeyboardKey::PhyZ => 0x1d,
            KeyboardKey::Phy1 => 0x1e,
            KeyboardKey::Phy2 => 0x1f,
            KeyboardKey::Phy3 => 0x20,
            KeyboardKey::Phy4 => 0x21,
            KeyboardKey::Phy5 => 0x22,
            KeyboardKey::Phy6 => 0x23,
            KeyboardKey::Phy7 => 0x24,
            KeyboardKey::Phy8 => 0x25,
            KeyboardKey::Phy9 => 0x26,
            KeyboardKey::Phy0 => 0x27,
            KeyboardKey::Enter => 0x28,
            KeyboardKey::Escape => 0x29,
            KeyboardKey::Backspace => 0x2a,
            KeyboardKey::Tab => 0x2b,
            KeyboardKey::Space => 0x2c,
            KeyboardKey::PhyHyphen => 0x2d,
            KeyboardKey::PhyEqual => 0x2e,
            KeyboardKey::PhyOpenBrace => 0x2f,
            KeyboardKey::PhyCloseBrace => 0x30,
            KeyboardKey::PhyBackslash => 0x31,
            KeyboardKey::PhyHash => 0x32,
            KeyboardKey::PhySemicolon => 0x33,
            KeyboardKey::PhyQuote => 0x34,
            KeyboardKey::PhyGrave => 0x35,
            KeyboardKey::PhyComma => 0x36,
            KeyboardKey::PhyPeriod => 0x37,
            KeyboardKey::PhySlash => 0x38,
            KeyboardKey::CapsLock => 0x39,
            KeyboardKey::F1 => 0x3a,
            KeyboardKey::F2 => 0x3b,
            KeyboardKey::F3 => 0x3c,
            KeyboardKey::F4 => 0x3d,
            KeyboardKey::F5 => 0x3e,
            KeyboardKey::F6 => 0x3f,
            KeyboardKey::F7 => 0x40,
            KeyboardKey::F8 => 0x41,
            KeyboardKey::F9 => 0x42,
            KeyboardKey::F10 => 0x43,
            KeyboardKey::F11 => 0x44,
            KeyboardKey::F12 => 0x45,
            KeyboardKey::PrintScreen => 0x46,
            KeyboardKey::ScrollLock => 0x47,
            KeyboardKey::Pause => 0x48,
            KeyboardKey::Insert => 0x49,
            KeyboardKey::Home => 0x4a,
            KeyboardKey::PageUp => 0x4b,
            KeyboardKey::Delete => 0x4c,
            KeyboardKey::End => 0x4d,
            KeyboardKey::PageDown => 0x4e,
            KeyboardKey::ArrowRight => 0x4f,
            KeyboardKey::ArrowLeft => 0x50,
            KeyboardKey::ArrowDown => 0x51,
            KeyboardKey::ArrowUp => 0x52,
            KeyboardKey::NumLock => 0x53,
            KeyboardKey::KeypadDivide => 0x54,
            KeyboardKey::KeypadMultiply => 0x55,
            KeyboardKey::KeypadMinus => 0x56,
            KeyboardKey::KeypadPlus => 0x57,
            KeyboardKey::KeypadEnter => 0x58,
            KeyboardKey::Keypad1 => 0x59,
            KeyboardKey::Keypad2 => 0x5a,
            KeyboardKey::Keypad3 => 0x5b,
            KeyboardKey::Keypad4 => 0x5c,
            KeyboardKey::Keypad5 => 0x5d,
            KeyboardKey::Keypad6 => 0x5e,
            KeyboardKey::Keypad7 => 0x5f,
            KeyboardKey::Keypad8 => 0x60,
            KeyboardKey::Keypad9 => 0x61,
            KeyboardKey::Keypad0 => 0x62,
            KeyboardKey::KeypadPoint => 0x63,
            KeyboardKey::PhysChevron => 0x64,
            KeyboardKey::LegacyApplication => 0x65,
            KeyboardKey::Power => 0x66,
            KeyboardKey::KeypadEqual => 0x67,
            KeyboardKey::F13 => 0x68,
            KeyboardKey::F14 => 0x69,
            KeyboardKey::F15 => 0x6a,
            KeyboardKey::F16 => 0x6b,
            KeyboardKey::F17 => 0x6c,
            KeyboardKey::F18 => 0x6d,
            KeyboardKey::F19 => 0x6e,
            KeyboardKey::F20 => 0x6f,
            KeyboardKey::F21 => 0x70,
            KeyboardKey::F22 => 0x71,
            KeyboardKey::F23 => 0x72,
            KeyboardKey::F24 => 0x73,
            KeyboardKey::Execute => 0x74,
            KeyboardKey::Help => 0x75,
            KeyboardKey::Menu => 0x76,
            KeyboardKey::Select => 0x77,
            KeyboardKey::Stop => 0x78,
            KeyboardKey::Again => 0x79,
            KeyboardKey::Undo => 0x7a,
            KeyboardKey::Cut => 0x7b,
            KeyboardKey::Copy => 0x7c,
            KeyboardKey::Paste => 0x7d,
            KeyboardKey::Find => 0x7e,
            KeyboardKey::Mute => 0x7f,
            KeyboardKey::VolumeUp => 0x80,
            KeyboardKey::VolumeDown => 0x81,
            KeyboardKey::LegacyLockingCapsLock => 0x82,
            KeyboardKey::LegacyLockingNumLock => 0x83,
            KeyboardKey::LegacyLockingScrollLock => 0x84,
            KeyboardKey::KeypadBrazilianComma => 0x85,
            KeyboardKey::LegacyKeypadEqual => 0x86,
            KeyboardKey::International1 => 0x87,
            KeyboardKey::International2 => 0x88,
            KeyboardKey::International3 => 0x89,
            KeyboardKey::International4 => 0x8a,
            KeyboardKey::International5 => 0x8b,
            KeyboardKey::International6 => 0x8c,
            KeyboardKey::International7 => 0x8d,
            KeyboardKey::International8 => 0x8e,
            KeyboardKey::International9 => 0x8f,
            KeyboardKey::International10 => 0x90,
            KeyboardKey::International11 => 0x91,
            KeyboardKey::International12 => 0x92,
            KeyboardKey::International13 => 0x93,
            KeyboardKey::International14 => 0x94,
            KeyboardKey::International15 => 0x95,
            KeyboardKey::International16 => 0x96,
            KeyboardKey::International17 => 0x97,
            KeyboardKey::International18 => 0x98,
            KeyboardKey::EraseAlt => 0x99,
            KeyboardKey::ControlLeft => 0xe0,
            KeyboardKey::ShiftLeft => 0xe1,
            KeyboardKey::AltLeft => 0xe2,
            KeyboardKey::SuperLeft => 0xe3,
            KeyboardKey::ControlRight => 0xe4,
            KeyboardKey::ShiftRight => 0xe5,
            KeyboardKey::AltRight => 0xe6,
            KeyboardKey::SuperRight => 0xe7,
        }
    }

    /// Converts this key to its 8-bit usage code: total, deterministic, and
    /// injective over the variants.
    pub fn code(self) -> (c: u8)
        ensures
            c == self.code_spec(),
    {
        match self {
            KeyboardKey::NoKey => 0x00,
            KeyboardKey::ErrorRollOver => 0x01,
            KeyboardKey::ErrorPostFail => 0x02,
            KeyboardKey::ErrorUndefined => 0x03,
            KeyboardKey::PhyA => 0x04,
            KeyboardKey::PhyB => 0x05,
            KeyboardKey::PhyC => 0x06,
            KeyboardKey::PhyD => 0x07,
            KeyboardKey::PhyE => 0x08,
            KeyboardKey::PhyF => 0x09,
            KeyboardKey::PhyG => 0x0a,
            KeyboardKey::PhyH => 0x0b,
            KeyboardKey::PhyI => 0x0c,
            KeyboardKey::PhyJ => 0x0d,
            KeyboardKey::PhyK => 0x0e,
            KeyboardKey::PhyL => 0x0f,
            KeyboardKey::PhyM => 0x10,
            KeyboardKey::PhyN => 0x11,
            KeyboardKey::PhyO => 0x12,
            KeyboardKey::PhyP => 0x13,
            KeyboardKey::PhyQ => 0x14,
            KeyboardKey::PhyR => 0x15,
            KeyboardKey::PhyS => 0x16,
            KeyboardKey::PhyT => 0x17,
            KeyboardKey::PhyU => 0x18,
            KeyboardKey::PhyV => 0x19,
            KeyboardKey::PhyW => 0x1a,
            KeyboardKey::PhyX => 0x1b,
            KeyboardKey::PhyY => 0x1c,
            KeyboardKey::PhyZ => 0x1d,
            KeyboardKey::Phy1 => 0x1e,
            KeyboardKey::Phy2 => 0x1f,
            KeyboardKey::Phy3 => 0x20,
            KeyboardKey::Phy4 => 0x21,
            KeyboardKey::Phy5 => 0x22,
            KeyboardKey::Phy6 => 0x23,
            KeyboardKey::Phy7 => 0x24,
            KeyboardKey::Phy8 => 0x25,
            KeyboardKey::Phy9 => 0x26,
            KeyboardKey::Phy0 => 0x27,
            KeyboardKey::Enter => 0x28,
            KeyboardKey::Escape => 0x29,
            KeyboardKey::Backspace => 0x2a,
            KeyboardKey::Tab => 0x2b,
            KeyboardKey::Space => 0x2c,
            KeyboardKey::PhyHyphen => 0x2d,
            KeyboardKey::PhyEqual => 0x2e,
            KeyboardKey::PhyOpenBrace => 0x2f,
            KeyboardKey::PhyCloseBrace => 0x30,
            KeyboardKey::PhyBackslash => 0x31,
            KeyboardKey::PhyHash => 0x32,
            KeyboardKey::PhySemicolon => 0x33,
            KeyboardKey::PhyQuote => 0x34,
            KeyboardKey::PhyGrave => 0x35,
            KeyboardKey::PhyComma => 0x36,
            KeyboardKey::PhyPeriod => 0x37,
            KeyboardKey::PhySlash => 0x38,
            KeyboardKey::CapsLock => 0x39,
            KeyboardKey::F1 => 0x3a,
            KeyboardKey::F2 => 0x3b,
            KeyboardKey::F3 => 0x3c,
            KeyboardKey::F4 => 0x3d,
            KeyboardKey::F5 => 0x3e,
            KeyboardKey::F6 => 0x3f,
            KeyboardKey::F7 => 0x40,
            KeyboardKey::F8 => 0x41,
            KeyboardKey::F9 => 0x42,
            KeyboardKey::F10 => 0x43,
            KeyboardKey::F11 => 0x44,
            KeyboardKey::F12 => 0x45,
            KeyboardKey::PrintScreen => 0x46,
            KeyboardKey::ScrollLock => 0x47,
            KeyboardKey::Pause => 0x48,
            KeyboardKey::Insert => 0x49,
            KeyboardKey::Home => 0x4a,
            KeyboardKey::PageUp => 0x4b,
            KeyboardKey::Delete => 0x4c,
            KeyboardKey::End => 0x4d,
            KeyboardKey::PageDown => 0x4e,
            KeyboardKey::ArrowRight => 0x4f,
            KeyboardKey::ArrowLeft => 0x50,
            KeyboardKey::ArrowDown => 0x51,
            KeyboardKey::ArrowUp => 0x52,
            KeyboardKey::NumLock => 0x53,
            KeyboardKey::KeypadDivide => 0x54,
            KeyboardKey::KeypadMultiply => 0x55,
            KeyboardKey::KeypadMinus => 0x56,
            KeyboardKey::KeypadPlus => 0x57,
            KeyboardKey::KeypadEnter => 0x58,
            KeyboardKey::Keypad1 => 0x59,
            KeyboardKey::Keypad2 => 0x5a,
            KeyboardKey::Keypad3 => 0x5b,
            KeyboardKey::Keypad4 => 0x5c,
            KeyboardKey::Keypad5 => 0x5d,
            KeyboardKey::Keypad6 => 0x5e,
            KeyboardKey::Keypad7 => 0x5f,
            KeyboardKey::Keypad8 => 0x60,
            KeyboardKey::Keypad9 => 0x61,
            KeyboardKey::Keypad0 => 0x62,
            KeyboardKey::KeypadPoint => 0x63,
            KeyboardKey::PhysChevron => 0x64,
            KeyboardKey::LegacyApplication => 0x65,
            KeyboardKey::Power => 0x66,
            KeyboardKey::KeypadEqual => 0x67,
            KeyboardKey::F13 => 0x68,
            KeyboardKey::F14 => 0x69,
            KeyboardKey::F15 => 0x6a,
            KeyboardKey::F16 => 0x6b,
            KeyboardKey::F17 => 0x6c,
            KeyboardKey::F18 => 0x6d,
            KeyboardKey::F19 => 0x6e,
            KeyboardKey::F20 => 0x6f,
            KeyboardKey::F21 => 0x70,
            KeyboardKey::F22 => 0x71,
            KeyboardKey::F23 => 0x72,
            KeyboardKey::F24 => 0x73,
            KeyboardKey::Execute => 0x74,
            KeyboardKey::Help => 0x75,
            KeyboardKey::Menu => 0x76,
            KeyboardKey::Select => 0x77,
            KeyboardKey::Stop => 0x78,
            KeyboardKey::Again => 0x79,
            KeyboardKey::Undo => 0x7a,
            KeyboardKey::Cut => 0x7b,
            KeyboardKey::Copy => 0x7c,
            KeyboardKey::Paste => 0x7d,
            KeyboardKey::Find => 0x7e,
            KeyboardKey::Mute => 0x7f,
            KeyboardKey::VolumeUp => 0x80,
            KeyboardKey::VolumeDown => 0x81,
            KeyboardKey::LegacyLockingCapsLock => 0x82,
            KeyboardKey::LegacyLockingNumLock => 0x83,
            KeyboardKey::LegacyLockingScrollLock => 0x84,
            KeyboardKey::KeypadBrazilianComma => 0x85,
            KeyboardKey::LegacyKeypadEqual => 0x86,
            KeyboardKey::International1 => 0x87,
            KeyboardKey::International2 => 0x88,
            KeyboardKey::International3 => 0x89,
            KeyboardKey::International4 => 0x8a,
            KeyboardKey::International5 => 0x8b,
            KeyboardKey::International6 => 0x8c,
            KeyboardKey::International7 => 0x8d,
            KeyboardKey::International8 => 0x8e,
            KeyboardKey::International9 => 0x8f,
            KeyboardKey::International10 => 0x90,
            KeyboardKey::International11 => 0x91,
            KeyboardKey::International12 => 0x92,
            KeyboardKey::International13 => 0x93,
            KeyboardKey::International14 => 0x94,
            KeyboardKey::International15 => 0x95,
            KeyboardKey::International16 => 0x96,
            KeyboardKey::International17 => 0x97,
            KeyboardKey::International18 => 0x98,
            KeyboardKey::EraseAlt => 0x99,
            KeyboardKey::ControlLeft => 0xe0,
            KeyboardKey::ShiftLeft => 0xe1,
            KeyboardKey::AltLeft => 0xe2,
            KeyboardKey::SuperLeft => 0xe3,
            KeyboardKey::ControlRight => 0xe4,
            KeyboardKey::ShiftRight => 0xe5,
            KeyboardKey::AltRight => 0xe6,
            KeyboardKey::SuperRight => 0xe7,
        }
    }
}

/// The partial inverse of the code mapping: the variant bound to a usage
/// code, or `None` for the codes that no variant covers (the standard's
/// reserved ranges). Ghost only: the library offers no executable reverse
/// lookup, but this function pins the forward mapping down, since
/// [`lemma_code_round_trip`] proves that it undoes [`KeyboardKey::code_spec`].
pub open spec fn key_of_code(c: u8) -> Option<KeyboardKey> {
    match c {
        0x00 => Some(KeyboardKey::NoKey),
        0x01 => Some(KeyboardKey::ErrorRollOver),
        0x02 => Some(KeyboardKey::ErrorPostFail),
        0x03 => Some(KeyboardKey::ErrorUndefined),
        0x04 => Some(KeyboardKey::PhyA),
        0x05 => Some(KeyboardKey::PhyB),
        0x06 => Some(KeyboardKey::PhyC),
        0x07 => Some(KeyboardKey::PhyD),
        0x08 => Some(KeyboardKey::PhyE),
        0x09 => Some(KeyboardKey::PhyF),
        0x0a => Some(KeyboardKey::PhyG),
        0x0b => Some(KeyboardKey::PhyH),
        0x0c => Some(KeyboardKey::PhyI),
        0x0d => Some(KeyboardKey::PhyJ),
        0x0e => Some(KeyboardKey::PhyK),
        0x0f => Some(KeyboardKey::PhyL),
        0x10 => Some(KeyboardKey::PhyM),
        0x11 => Some(KeyboardKey::PhyN),
        0x12 => Some(KeyboardKey::PhyO),
        0x13 => Some(KeyboardKey::PhyP),
        0x14 => Some(KeyboardKey::PhyQ),
        0x15 => Some(KeyboardKey::PhyR),
        0x16 => Some(KeyboardKey::PhyS),
        0x17 => Some(KeyboardKey::PhyT),
        0x18 => Some(KeyboardKey::PhyU),
        0x19 => Some(KeyboardKey::PhyV),
        0x1a => Some(KeyboardKey::PhyW),
        0x1b => Some(KeyboardKey::PhyX),
        0x1c => Some(KeyboardKey::PhyY),
        0x1d => Some(KeyboardKey::PhyZ),
        0x1e => Some(KeyboardKey::Phy1),
        0x1f => Some(KeyboardKey::Phy2),
        0x20 => Some(KeyboardKey::Phy3),
        0x21 => Some(KeyboardKey::Phy4),
        0x22 => Some(KeyboardKey::Phy5),
        0x23 => Some(KeyboardKey::Phy6),
        0x24 => Some(KeyboardKey::Phy7),
        0x25 => Some(KeyboardKey::Phy8),
        0x26 => Some(KeyboardKey::Phy9),
        0x27 => Some(KeyboardKey::Phy0),
        0x28 => Some(KeyboardKey::Enter),
        0x29 => Some(KeyboardKey::Escape),
        0x2a => Some(KeyboardKey::Backspace),
        0x2b => Some(KeyboardKey::Tab),
        0x2c => Some(KeyboardKey::Space),
        0x2d => Some(KeyboardKey::PhyHyphen),
        0x2e => Some(KeyboardKey::PhyEqual),
        0x2f => Some(KeyboardKey::PhyOpenBrace),
        0x30 => Some(KeyboardKey::PhyCloseBrace),
        0x31 => Some(KeyboardKey::PhyBackslash),
        0x32 => Some(KeyboardKey::PhyHash),
        0x33 => Some(KeyboardKey::PhySemicolon),
        0x34 => Some(KeyboardKey::PhyQuote),
        0x35 => Some(KeyboardKey::PhyGrave),
        0x36 => Some(KeyboardKey::PhyComma),
        0x37 => Some(KeyboardKey::PhyPeriod),
        0x38 => Some(KeyboardKey::PhySlash),
        0x39 => Some(KeyboardKey::CapsLock),
        0x3a => Some(KeyboardKey::F1),
        0x3b => Some(KeyboardKey::F2),
        0x3c => Some(KeyboardKey::F3),
        0x3d => Some(KeyboardKey::F4),
        0x3e => Some(KeyboardKey::F5),
        0x3f => Some(KeyboardKey::F6),
        0x40 => Some(KeyboardKey::F7),
        0x41 => Some(KeyboardKey::F8),
        0x42 => Some(KeyboardKey::F9),
        0x43 => Some(KeyboardKey::F10),
        0x44 => Some(KeyboardKey::F11),
        0x45 => Some(KeyboardKey::F12),
        0x46 => Some(KeyboardKey::PrintScreen),
        0x47 => Some(KeyboardKey::ScrollLock),
        0x48 => Some(KeyboardKey::Pause),
        0x49 => Some(KeyboardKey::Insert),
        0x4a => Some(KeyboardKey::Home),
        0x4b => Some(KeyboardKey::PageUp),
        0x4c => Some(KeyboardKey::Delete),
        0x4d => Some(KeyboardKey::End),
        0x4e => Some(KeyboardKey::PageDown),
        0x4f => Some(KeyboardKey::ArrowRight),
        0x50 => Some(KeyboardKey::ArrowLeft),
        0x51 => Some(KeyboardKey::ArrowDown),
        0x52 => Some(KeyboardKey::ArrowUp),
        0x53 => Some(KeyboardKey::NumLock),
        0x54 => Some(KeyboardKey::KeypadDivide),
        0x55 => Some(KeyboardKey::KeypadMultiply),
        0x56 => Some(KeyboardKey::KeypadMinus),
        0x57 => Some(KeyboardKey::KeypadPlus),
        0x58 => Some(KeyboardKey::KeypadEnter),
        0x59 => Some(KeyboardKey::Keypad1),
        0x5a => Some(KeyboardKey::Keypad2),
        0x5b => Some(KeyboardKey::Keypad3),
        0x5c => Some(KeyboardKey::Keypad4),
        0x5d => Some(KeyboardKey::Keypad5),
        0x5e => Some(KeyboardKey::Keypad6),
        0x5f => Some(KeyboardKey::Keypad7),
        0x60 => Some(KeyboardKey::Keypad8),
        0x61 => Some(KeyboardKey::Keypad9),
        0x62 => Some(KeyboardKey::Keypad0),
        0x63 => Some(KeyboardKey::KeypadPoint),
        0x64 => Some(KeyboardKey::PhysChevron),
        0x65 => Some(KeyboardKey::LegacyApplication),
        0x66 => Some(KeyboardKey::Power),
        0x67 => Some(KeyboardKey::KeypadEqual),
        0x68 => Some(KeyboardKey::F13),
        0x69 => Some(KeyboardKey::F14),
        0x6a => Some(KeyboardKey::F15),
        0x6b => Some(KeyboardKey::F16),
        0x6c => Some(KeyboardKey::F17),
        0x6d => Some(KeyboardKey::F18),
        0x6e => Some(KeyboardKey::F19),
        0x6f => Some(KeyboardKey::F20),
        0x70 => Some(KeyboardKey::F21),
        0x71 => Some(KeyboardKey::F22),
        0x72 => Some(KeyboardKey::F23),
        0x73 => Some(KeyboardKey::F24),
        0x74 => Some(KeyboardKey::Execute),
        0x75 => Some(KeyboardKey::Help),
        0x76 => Some(KeyboardKey::Menu),
        0x77 => Some(KeyboardKey::Select),
        0x78 => Some(KeyboardKey::Stop),
        0x79 => Some(KeyboardKey::Again),
        0x7a => Some(KeyboardKey::Undo),
        0x7b => Some(KeyboardKey::Cut),
        0x7c => Some(KeyboardKey::Copy),
        0x7d => Some(KeyboardKey::Paste),
        0x7e => Some(KeyboardKey::Find),
        0x7f => Some(KeyboardKey::Mute),
        0x80 => Some(KeyboardKey::VolumeUp),
        0x81 => Some(KeyboardKey::VolumeDown),
        0x82 => Some(KeyboardKey::LegacyLockingCapsLock),
        0x83 => Some(KeyboardKey::LegacyLockingNumLock),
        0x84 => Some(KeyboardKey::LegacyLockingScrollLock),
        0x85 => Some(KeyboardKey::KeypadBrazilianComma),
        0x86 => Some(KeyboardKey::LegacyKeypadEqual),
        0x87 => Some(KeyboardKey::International1),
        0x88 => Some(KeyboardKey::International2),
        0x89 => Some(KeyboardKey::International3),
        0x8a => Some(KeyboardKey::International4),
        0x8b => Some(KeyboardKey::International5),
        0x8c => Some(KeyboardKey::International6),
        0x8d => Some(KeyboardKey::International7),
        0x8e => Some(KeyboardKey::International8),
        0x8f => Some(KeyboardKey::International9),
        0x90 => Some(KeyboardKey::International10),
        0x91 => Some(KeyboardKey::International11),
        0x92 => Some(KeyboardKey::International12),
        0x93 => Some(KeyboardKey::International13),
        0x94 => Some(KeyboardKey::International14),
        0x95 => Some(KeyboardKey::International15),
        0x96 => Some(KeyboardKey::International16),
        0x97 => Some(KeyboardKey::International17),
        0x98 => Some(KeyboardKey::International18),
        0x99 => Some(KeyboardKey::EraseAlt),
        0xe0 => Some(KeyboardKey::ControlLeft),
        0xe1 => Some(KeyboardKey::ShiftLeft),
        0xe2 => Some(KeyboardKey::AltLeft),
        0xe3 => Some(KeyboardKey::SuperLeft),
        0xe4 => Some(KeyboardKey::ControlRight),
        0xe5 => Some(KeyboardKey::ShiftRight),
        0xe6 => Some(KeyboardKey::AltRight),
        0xe7 => Some(KeyboardKey::SuperRight),
        _ => None,
    }
}

/// Every variant is recovered from its own code: the code mapping never
/// collapses two keys, and a variant reselected from its code is unchanged.
pub proof fn lemma_code_round_trip(k: KeyboardKey)
    ensures
        key_of_code(k.code_spec()) == Some(k),
{
}

/// The code mapping is injective: two keys are the same variant exactly when
/// their usage codes are equal.
pub proof fn lemma_code_injective(a: KeyboardKey, b: KeyboardKey)
    ensures
        a == b <==> a.code_spec() == b.code_spec(),
{
    lemma_code_round_trip(a);
    lemma_code_round_trip(b);
}

impl From<KeyboardKey> for u8 {
    /// The usage code of `key`, as [`KeyboardKey::code`] gives it.
    fn from(key: KeyboardKey) -> (c: u8) {
        key.code()
    }
}

impl vstd::std_specs::convert::FromSpecImpl<KeyboardKey> for u8 {
    open spec fn obeys_from_spec() -> bool {
        true
    }

    open spec fn from_spec(key: KeyboardKey) -> u8 {
        key.code_spec()
    }
}

impl Default for KeyboardKey {
    /// The default key is `NoKey`, the "no key" placeholder of an unwired
    /// matrix cell.
    fn default() -> (k: KeyboardKey)
        ensures
            k == KeyboardKey::NoKey,
    {
        KeyboardKey::NoKey
    }
}

} // verus!
