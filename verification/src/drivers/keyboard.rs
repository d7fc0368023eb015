//! The keyboard: scan codes of set 1, and which keys are down.

use vstd::prelude::*;

verus! {

/// The keys.
#[derive(Debug, Clone, Copy, PartialEq, Eq, Structural)]
pub enum KeyCode {
    Null,
    Escape,
    One,
    Two,
    Three,
    Four,
    Five,
    Six,
    Seven,
    Eight,
    Nine,
    Zero,
    Minus,
    Equal,
    Backspace,
    Tab,
    Q,
    W,
    E,
    R,
    T,
    Y,
    U,
    I,
    O,
    P,
    LeftBracket,
    RightBracket,
    Enter,
    LeftControl,
    A,
    S,
    D,
    F,
    G,
    H,
    J,
    K,
    L,
    SemiColon,
    Apostrophe,
    Grave,
    LeftShift,
    Backslash,
    Z,
    X,
    C,
    V,
    B,
    N,
    M,
    Comma,
    Period,
    Slash,
    RightShift,
    KeypadAsterisk,
    LeftAlt,
    Space,
    CapsLock,
    F1,
    F2,
    F3,
    F4,
    F5,
    F6,
    F7,
    F8,
    F9,
    F10,
    NumberLock,
    ScrollLock,
    KeypadSeven,
    KeypadEight,
    KeypadNine,
    KeypadMinus,
    KeypadFour,
    KeypadFive,
    KeypadSix,
    KeypadPlus,
    KeypadOne,
    KeypadTwo,
    KeypadThree,
    KeypadZero,
    KeypadPeriod,
    F11,
    F12,
    PreviousTrack,
    NextTrack,
    KeypadEnter,
    RightControl,
    Mute,
    Calculator,
    Play,
    Stop,
    VolumeDown,
    VolumeUp,
    WWWHome,
    KeypadSlash,
    RightAlt,
    Home,
    CursorUp,
    PageUp,
    CursorLeft,
    CursorRight,
    End,
    CursorDown,
    PageDown,
    Insert,
    Delete,
    LeftGUI,
    RightGUI,
    Apps,
    Power,
    Sleep,
    Wake,
    WWWSearch,
    WWWFavorites,
    WWWRefresh,
    WWWStop,
    WWWForward,
    WWWBack,
    MyComputer,
    Email,
    MediaSelect,
    PrintScreen,
    PauseBreak,
}

/// Number of keys, with `Null`.
pub const KEYS: usize = 126;

/// Whether a key is down.
#[derive(Debug, Copy, Clone, PartialEq, Eq, Structural)]
pub enum KeyState {
    Null,
    Down,
    Up,
}

/// The scan code that ends the sequence of the pause key: the last four of
/// the six bytes E1 1D 45 E1 9D C5, which is what is left of the sequence
/// in 32 bits.
pub const PAUSE_CODE: u32 = 0x45E19DC5;

/// The scan code of the print screen key going down.
pub const PRINT_SCREEN_DOWN: u32 = 0xE02AE037;

/// The scan code of the print screen key going up.
pub const PRINT_SCREEN_UP: u32 = 0xE0B7E0AA;

impl KeyCode {
    /// The place of the key among the keys, from 0.
    pub open spec fn ordinal(self) -> int {
        match self {
            KeyCode::Null => 0,
            KeyCode::Escape => 1,
            KeyCode::One => 2,
            KeyCode::Two => 3,
            KeyCode::Three => 4,
            KeyCode::Four => 5,
            KeyCode::Five => 6,
            KeyCode::Six => 7,
            KeyCode::Seven => 8,
            KeyCode::Eight => 9,
            KeyCode::Nine => 10,
            KeyCode::Zero => 11,
            KeyCode::Minus => 12,
            KeyCode::Equal => 13,
            KeyCode::Backspace => 14,
            KeyCode::Tab => 15,
            KeyCode::Q => 16,
            KeyCode::W => 17,
            KeyCode::E => 18,
            KeyCode::R => 19,
            KeyCode::T => 20,
            KeyCode::Y => 21,
            KeyCode::U => 22,
            KeyCode::I => 23,
            KeyCode::O => 24,
            KeyCode::P => 25,
            KeyCode::LeftBracket => 26,
            KeyCode::RightBracket => 27,
            KeyCode::Enter => 28,
            KeyCode::LeftControl => 29,
            KeyCode::A => 30,
            KeyCode::S => 31,
            KeyCode::D => 32,
            KeyCode::F => 33,
            KeyCode::G => 34,
            KeyCode::H => 35,
            KeyCode::J => 36,
            KeyCode::K => 37,
            KeyCode::L => 38,
            KeyCode::SemiColon => 39,
            KeyCode::Apostrophe => 40,
            KeyCode::Grave => 41,
            KeyCode::LeftShift => 42,
            KeyCode::Backslash => 43,
            KeyCode::Z => 44,
            KeyCode::X => 45,
            KeyCode::C => 46,
            KeyCode::V => 47,
            KeyCode::B => 48,
            KeyCode::N => 49,
            KeyCode::M => 50,
            KeyCode::Comma => 51,
            KeyCode::Period => 52,
            KeyCode::Slash => 53,
            KeyCode::RightShift => 54,
            KeyCode::KeypadAsterisk => 55,
            KeyCode::LeftAlt => 56,
            KeyCode::Space => 57,
            KeyCode::CapsLock => 58,
            KeyCode::F1 => 59,
            KeyCode::F2 => 60,
            KeyCode::F3 => 61,
            KeyCode::F4 => 62,
            KeyCode::F5 => 63,
            KeyCode::F6 => 64,
            KeyCode::F7 => 65,
            KeyCode::F8 => 66,
            KeyCode::F9 => 67,
            KeyCode::F10 => 68,
            KeyCode::NumberLock => 69,
            KeyCode::ScrollLock => 70,
            KeyCode::KeypadSeven => 71,
            KeyCode::KeypadEight => 72,
            KeyCode::KeypadNine => 73,
            KeyCode::KeypadMinus => 74,
            KeyCode::KeypadFour => 75,
            KeyCode::KeypadFive => 76,
            KeyCode::KeypadSix => 77,
            KeyCode::KeypadPlus => 78,
            KeyCode::KeypadOne => 79,
            KeyCode::KeypadTwo => 80,
            KeyCode::KeypadThree => 81,
            KeyCode::KeypadZero => 82,
            KeyCode::KeypadPeriod => 83,
            KeyCode::F11 => 84,
            KeyCode::F12 => 85,
            KeyCode::PreviousTrack => 86,
            KeyCode::NextTrack => 87,
            KeyCode::KeypadEnter => 88,
            KeyCode::RightControl => 89,
            KeyCode::Mute => 90,
            KeyCode::Calculator => 91,
            KeyCode::Play => 92,
            KeyCode::Stop => 93,
            KeyCode::VolumeDown => 94,
            KeyCode::VolumeUp => 95,
            KeyCode::WWWHome => 96,
            KeyCode::KeypadSlash => 97,
            KeyCode::RightAlt => 98,
            KeyCode::Home => 99,
            KeyCode::CursorUp => 100,
            KeyCode::PageUp => 101,
            KeyCode::CursorLeft => 102,
            KeyCode::CursorRight => 103,
            KeyCode::End => 104,
            KeyCode::CursorDown => 105,
            KeyCode::PageDown => 106,
            KeyCode::Insert => 107,
            KeyCode::Delete => 108,
            KeyCode::LeftGUI => 109,
            KeyCode::RightGUI => 110,
            KeyCode::Apps => 111,
            KeyCode::Power => 112,
            KeyCode::Sleep => 113,
            KeyCode::Wake => 114,
            KeyCode::WWWSearch => 115,
            KeyCode::WWWFavorites => 116,
            KeyCode::WWWRefresh => 117,
            KeyCode::WWWStop => 118,
            KeyCode::WWWForward => 119,
            KeyCode::WWWBack => 120,
            KeyCode::MyComputer => 121,
            KeyCode::Email => 122,
            KeyCode::MediaSelect => 123,
            KeyCode::PrintScreen => 124,
            KeyCode::PauseBreak => 125,
        }
    }

    /// Computes `ordinal`.
    pub fn index(self) -> (index: usize)
        ensures
            index == self.ordinal(),
            index < KEYS,
    {
        match self {
            KeyCode::Null => 0,
            KeyCode::Escape => 1,
            KeyCode::One => 2,
            KeyCode::Two => 3,
            KeyCode::Three => 4,
            KeyCode::Four => 5,
            KeyCode::Five => 6,
            KeyCode::Six => 7,
            KeyCode::Seven => 8,
            KeyCode::Eight => 9,
            KeyCode::Nine => 10,
            KeyCode::Zero => 11,
            KeyCode::Minus => 12,
            KeyCode::Equal => 13,
            KeyCode::Backspace => 14,
            KeyCode::Tab => 15,
            KeyCode::Q => 16,
            KeyCode::W => 17,
            KeyCode::E => 18,
            KeyCode::R => 19,
            KeyCode::T => 20,
            KeyCode::Y => 21,
            KeyCode::U => 22,
            KeyCode::I => 23,
            KeyCode::O => 24,
            KeyCode::P => 25,
            KeyCode::LeftBracket => 26,
            KeyCode::RightBracket => 27,
            KeyCode::Enter => 28,
            KeyCode::LeftControl => 29,
            KeyCode::A => 30,
            KeyCode::S => 31,
            KeyCode::D => 32,
            KeyCode::F => 33,
            KeyCode::G => 34,
            KeyCode::H => 35,
            KeyCode::J => 36,
            KeyCode::K => 37,
            KeyCode::L => 38,
            KeyCode::SemiColon => 39,
            KeyCode::Apostrophe => 40,
            KeyCode::Grave => 41,
            KeyCode::LeftShift => 42,
            KeyCode::Backslash => 43,
            KeyCode::Z => 44,
            KeyCode::X => 45,
            KeyCode::C => 46,
            KeyCode::V => 47,
            KeyCode::B => 48,
            KeyCode::N => 49,
            KeyCode::M => 50,
            KeyCode::Comma => 51,
            KeyCode::Period => 52,
            KeyCode::Slash => 53,
            KeyCode::RightShift => 54,
            KeyCode::KeypadAsterisk => 55,
            KeyCode::LeftAlt => 56,
            KeyCode::Space => 57,
            KeyCode::CapsLock => 58,
            KeyCode::F1 => 59,
            KeyCode::F2 => 60,
            KeyCode::F3 => 61,
            KeyCode::F4 => 62,
            KeyCode::F5 => 63,
            KeyCode::F6 => 64,
            KeyCode::F7 => 65,
            KeyCode::F8 => 66,
            KeyCode::F9 => 67,
            KeyCode::F10 => 68,
            KeyCode::NumberLock => 69,
            KeyCode::ScrollLock => 70,
            KeyCode::KeypadSeven => 71,
            KeyCode::KeypadEight => 72,
            KeyCode::KeypadNine => 73,
            KeyCode::KeypadMinus => 74,
            KeyCode::KeypadFour => 75,
            KeyCode::KeypadFive => 76,
            KeyCode::KeypadSix => 77,
            KeyCode::KeypadPlus => 78,
            KeyCode::KeypadOne => 79,
            KeyCode::KeypadTwo => 80,
            KeyCode::KeypadThree => 81,
            KeyCode::KeypadZero => 82,
            KeyCode::KeypadPeriod => 83,
            KeyCode::F11 => 84,
            KeyCode::F12 => 85,
            KeyCode::PreviousTrack => 86,
            KeyCode::NextTrack => 87,
            KeyCode::KeypadEnter => 88,
            KeyCode::RightControl => 89,
            KeyCode::Mute => 90,
            KeyCode::Calculator => 91,
            KeyCode::Play => 92,
            KeyCode::Stop => 93,
            KeyCode::VolumeDown => 94,
            KeyCode::VolumeUp => 95,
            KeyCode::WWWHome => 96,
            KeyCode::KeypadSlash => 97,
            KeyCode::RightAlt => 98,
            KeyCode::Home => 99,
            KeyCode::CursorUp => 100,
            KeyCode::PageUp => 101,
            KeyCode::CursorLeft => 102,
            KeyCode::CursorRight => 103,
            KeyCode::End => 104,
            KeyCode::CursorDown => 105,
            KeyCode::PageDown => 106,
            KeyCode::Insert => 107,
            KeyCode::Delete => 108,
            KeyCode::LeftGUI => 109,
            KeyCode::RightGUI => 110,
            KeyCode::Apps => 111,
            KeyCode::Power => 112,
            KeyCode::Sleep => 113,
            KeyCode::Wake => 114,
            KeyCode::WWWSearch => 115,
            KeyCode::WWWFavorites => 116,
            KeyCode::WWWRefresh => 117,
            KeyCode::WWWStop => 118,
            KeyCode::WWWForward => 119,
            KeyCode::WWWBack => 120,
            KeyCode::MyComputer => 121,
            KeyCode::Email => 122,
            KeyCode::MediaSelect => 123,
            KeyCode::PrintScreen => 124,
            KeyCode::PauseBreak => 125,
        }
    }
}

/// The key with the make code `code`, that is the code that a keyboard
/// sends when the key goes down; `Null` where no key has that code.
pub open spec fn key_of_make_code(code: u32) -> KeyCode {
    match code {
        0x01 => KeyCode::Escape,
        0x02 => KeyCode::One,
        0x03 => KeyCode::Two,
        0x04 => KeyCode::Three,
        0x05 => KeyCode::Four,
        0x06 => KeyCode::Five,
        0x07 => KeyCode::Six,
        0x08 => KeyCode::Seven,
        0x09 => KeyCode::Eight,
        0x0A => KeyCode::Nine,
        0x0B => KeyCode::Zero,
        0x0C => KeyCode::Minus,
        0x0D => KeyCode::Equal,
        0x0E => KeyCode::Backspace,
        0x0F => KeyCode::Tab,
        0x10 => KeyCode::Q,
        0x11 => KeyCode::W,
        0x12 => KeyCode::E,
        0x13 => KeyCode::R,
        0x14 => KeyCode::T,
        0x15 => KeyCode::Y,
        0x16 => KeyCode::U,
        0x17 => KeyCode::I,
        0x18 => KeyCode::O,
        0x19 => KeyCode::P,
        0x1A => KeyCode::LeftBracket,
        0x1B => KeyCode::RightBracket,
        0x1C => KeyCode::Enter,
        0x1D => KeyCode::LeftControl,
        0x1E => KeyCode::A,
        0x1F => KeyCode::S,
        0x20 => KeyCode::D,
        0x21 => KeyCode::F,
        0x22 => KeyCode::G,
        0x23 => KeyCode::H,
        0x24 => KeyCode::J,
        0x25 => KeyCode::K,
        0x26 => KeyCode::L,
        0x27 => KeyCode::SemiColon,
        0x28 => KeyCode::Apostrophe,
        0x29 => KeyCode::Grave,
        0x2A => KeyCode::LeftShift,
        0x2B => KeyCode::Backslash,
        0x2C => KeyCode::Z,
        0x2D => KeyCode::X,
        0x2E => KeyCode::C,
        0x2F => KeyCode::V,
        0x30 => KeyCode::B,
        0x31 => KeyCode::N,
        0x32 => KeyCode::M,
        0x33 => KeyCode::Comma,
        0x34 => KeyCode::Period,
        0x35 => KeyCode::Slash,
        0x36 => KeyCode::RightShift,
        0x37 => KeyCode::KeypadAsterisk,
        0x38 => KeyCode::LeftAlt,
        0x39 => KeyCode::Space,
        0x3A => KeyCode::CapsLock,
        0x3B => KeyCode::F1,
        0x3C => KeyCode::F2,
        0x3D => KeyCode::F3,
        0x3E => KeyCode::F4,
        0x3F => KeyCode::F5,
        0x40 => KeyCode::F6,
        0x41 => KeyCode::F7,
        0x42 => KeyCode::F8,
        0x43 => KeyCode::F9,
        0x44 => KeyCode::F10,
        0x45 => KeyCode::NumberLock,
        0x46 => KeyCode::ScrollLock,
        0x47 => KeyCode::KeypadSeven,
        0x48 => KeyCode::KeypadEight,
        0x49 => KeyCode::KeypadNine,
        0x4A => KeyCode::KeypadMinus,
        0x4B => KeyCode::KeypadFour,
        0x4C => KeyCode::KeypadFive,
        0x4D => KeyCode::KeypadSix,
        0x4E => KeyCode::KeypadPlus,
        0x4F => KeyCode::KeypadOne,
        0x50 => KeyCode::KeypadTwo,
        0x51 => KeyCode::KeypadThree,
        0x52 => KeyCode::KeypadZero,
        0x53 => KeyCode::KeypadPeriod,
        0x57 => KeyCode::F11,
        0x58 => KeyCode::F12,
        0xE010 => KeyCode::PreviousTrack,
        0xE019 => KeyCode::NextTrack,
        0xE01C => KeyCode::KeypadEnter,
        0xE01D => KeyCode::RightControl,
        0xE020 => KeyCode::Mute,
        0xE021 => KeyCode::Calculator,
        0xE022 => KeyCode::Play,
        0xE024 => KeyCode::Stop,
        0xE02E => KeyCode::VolumeDown,
        0xE030 => KeyCode::VolumeUp,
        0xE032 => KeyCode::WWWHome,
        0xE035 => KeyCode::KeypadSlash,
        0xE038 => KeyCode::RightAlt,
        0xE047 => KeyCode::Home,
        0xE048 => KeyCode::CursorUp,
        0xE049 => KeyCode::PageUp,
        0xE04B => KeyCode::CursorLeft,
        0xE04D => KeyCode::CursorRight,
        0xE04F => KeyCode::End,
        0xE050 => KeyCode::CursorDown,
        0xE051 => KeyCode::PageDown,
        0xE052 => KeyCode::Insert,
        0xE053 => KeyCode::Delete,
        0xE05B => KeyCode::LeftGUI,
        0xE05C => KeyCode::RightGUI,
        0xE05D => KeyCode::Apps,
        0xE05E => KeyCode::Power,
        0xE05F => KeyCode::Sleep,
        0xE063 => KeyCode::Wake,
        0xE065 => KeyCode::WWWSearch,
        0xE066 => KeyCode::WWWFavorites,
        0xE067 => KeyCode::WWWRefresh,
        0xE068 => KeyCode::WWWStop,
        0xE069 => KeyCode::WWWForward,
        0xE06A => KeyCode::WWWBack,
        0xE06B => KeyCode::MyComputer,
        0xE06C => KeyCode::Email,
        0xE06D => KeyCode::MediaSelect,
        _ => KeyCode::Null,
    }
}

/// `code` is in the range of the make codes: one byte below 0x80, or the
/// byte E0 and one byte below 0x80.
pub open spec fn in_make_range(code: u32) -> bool {
    code < 0x80 || 0xE000 <= code < 0xE080
}

/// `code` is in the range of the break codes, which a keyboard sends when
/// a key goes up: each is the key's make code with 0x80 added.
pub open spec fn in_break_range(code: u32) -> bool {
    0x80 <= code < 0x100 || 0xE080 <= code < 0xE100
}

/// The key and the state that the scan code `scan_code` stands for, if it
/// is a whole scan code.
pub open spec fn key_event(scan_code: u32) -> Option<(KeyCode, KeyState)> {
    if scan_code == PRINT_SCREEN_DOWN {
        Some((KeyCode::PrintScreen, KeyState::Down))
    } else if scan_code == PRINT_SCREEN_UP {
        Some((KeyCode::PrintScreen, KeyState::Up))
    } else if scan_code == PAUSE_CODE {
        Some((KeyCode::PauseBreak, KeyState::Down))
    } else if in_make_range(scan_code) && key_of_make_code(scan_code) != KeyCode::Null {
        Some((key_of_make_code(scan_code), KeyState::Down))
    } else if in_break_range(scan_code) && key_of_make_code((scan_code - 0x80) as u32)
        != KeyCode::Null {
        Some((key_of_make_code((scan_code - 0x80) as u32), KeyState::Up))
    } else {
        None
    }
}

/// The key and the state that a scan code of set 1 stands for.
pub fn scan_to_key(scan_code: u32) -> (event: Option<(KeyCode, KeyState)>)
    ensures
        event == key_event(scan_code),
{
    let key_state: (KeyCode, KeyState) = match scan_code {
        0x01 => (KeyCode::Escape, KeyState::Down),
        0x81 => (KeyCode::Escape, KeyState::Up),
        0x02 => (KeyCode::One, KeyState::Down),
        0x82 => (KeyCode::One, KeyState::Up),
        0x03 => (KeyCode::Two, KeyState::Down),
        0x83 => (KeyCode::Two, KeyState::Up),
        0x04 => (KeyCode::Three, KeyState::Down),
        0x84 => (KeyCode::Three, KeyState::Up),
        0x05 => (KeyCode::Four, KeyState::Down),
        0x85 => (KeyCode::Four, KeyState::Up),
        0x06 => (KeyCode::Five, KeyState::Down),
        0x86 => (KeyCode::Five, KeyState::Up),
        0x07 => (KeyCode::Six, KeyState::Down),
        0x87 => (KeyCode::Six, KeyState::Up),
        0x08 => (KeyCode::Seven, KeyState::Down),
        0x88 => (KeyCode::Seven, KeyState::Up),
        0x09 => (KeyCode::Eight, KeyState::Down),
        0x89 => (KeyCode::Eight, KeyState::Up),
        0x0A => (KeyCode::Nine, KeyState::Down),
        0x8A => (KeyCode::Nine, KeyState::Up),
        0x0B => (KeyCode::Zero, KeyState::Down),
        0x8B => (KeyCode::Zero, KeyState::Up),
        0x0C => (KeyCode::Minus, KeyState::Down),
        0x8C => (KeyCode::Minus, KeyState::Up),
        0x0D => (KeyCode::Equal, KeyState::Down),
        0x8D => (KeyCode::Equal, KeyState::Up),
        0x0E => (KeyCode::Backspace, KeyState::Down),
        0x8E => (KeyCode::Backspace, KeyState::Up),
        0x0F => (KeyCode::Tab, KeyState::Down),
        0x8F => (KeyCode::Tab, KeyState::Up),
        0x10 => (KeyCode::Q, KeyState::Down),
        0x90 => (KeyCode::Q, KeyState::Up),
        0x11 => (KeyCode::W, KeyState::Down),
        0x91 => (KeyCode::W, KeyState::Up),
        0x12 => (KeyCode::E, KeyState::Down),
        0x92 => (KeyCode::E, KeyState::Up),
        0x13 => (KeyCode::R, KeyState::Down),
        0x93 => (KeyCode::R, KeyState::Up),
        0x14 => (KeyCode::T, KeyState::Down),
        0x94 => (KeyCode::T, KeyState::Up),
        0x15 => (KeyCode::Y, KeyState::Down),
        0x95 => (KeyCode::Y, KeyState::Up),
        0x16 => (KeyCode::U, KeyState::Down),
        0x96 => (KeyCode::U, KeyState::Up),
        0x17 => (KeyCode::I, KeyState::Down),
        0x97 => (KeyCode::I, KeyState::Up),
        0x18 => (KeyCode::O, KeyState::Down),
        0x98 => (KeyCode::O, KeyState::Up),
        0x19 => (KeyCode::P, KeyState::Down),
        0x99 => (KeyCode::P, KeyState::Up),
        0x1A => (KeyCode::LeftBracket, KeyState::Down),
        0x9A => (KeyCode::LeftBracket, KeyState::Up),
        0x1B => (KeyCode::RightBracket, KeyState::Down),
        0x9B => (KeyCode::RightBracket, KeyState::Up),
        0x1C => (KeyCode::Enter, KeyState::Down),
        0x9C => (KeyCode::Enter, KeyState::Up),
        0x1D => (KeyCode::LeftControl, KeyState::Down),
        0x9D => (KeyCode::LeftControl, KeyState::Up),
        0x1E => (KeyCode::A, KeyState::Down),
        0x9E => (KeyCode::A, KeyState::Up),
        0x1F => (KeyCode::S, KeyState::Down),
        0x9F => (KeyCode::S, KeyState::Up),
        0x20 => (KeyCode::D, KeyState::Down),
        0xA0 => (KeyCode::D, KeyState::Up),
        0x21 => (KeyCode::F, KeyState::Down),
        0xA1 => (KeyCode::F, KeyState::Up),
        0x22 => (KeyCode::G, KeyState::Down),
        0xA2 => (KeyCode::G, KeyState::Up),
        0x23 => (KeyCode::H, KeyState::Down),
        0xA3 => (KeyCode::H, KeyState::Up),
        0x24 => (KeyCode::J, KeyState::Down),
        0xA4 => (KeyCode::J, KeyState::Up),
        0x25 => (KeyCode::K, KeyState::Down),
        0xA5 => (KeyCode::K, KeyState::Up),
        0x26 => (KeyCode::L, KeyState::Down),
        0xA6 => (KeyCode::L, KeyState::Up),
        0x27 => (KeyCode::SemiColon, KeyState::Down),
        0xA7 => (KeyCode::SemiColon, KeyState::Up),
        0x28 => (KeyCode::Apostrophe, KeyState::Down),
        0xA8 => (KeyCode::Apostrophe, KeyState::Up),
        0x29 => (KeyCode::Grave, KeyState::Down),
        0xA9 => (KeyCode::Grave, KeyState::Up),
        0x2A => (KeyCode::LeftShift, KeyState::Down),
        0xAA => (KeyCode::LeftShift, KeyState::Up),
        0x2B => (KeyCode::Backslash, KeyState::Down),
        0xAB => (KeyCode::Backslash, KeyState::Up),
        0x2C => (KeyCode::Z, KeyState::Down),
        0xAC => (KeyCode::Z, KeyState::Up),
        0x2D => (KeyCode::X, KeyState::Down),
        0xAD => (KeyCode::X, KeyState::Up),
        0x2E => (KeyCode::C, KeyState::Down),
        0xAE => (KeyCode::C, KeyState::Up),
        0x2F => (KeyCode::V, KeyState::Down),
        0xAF => (KeyCode::V, KeyState::Up),
        0x30 => (KeyCode::B, KeyState::Down),
        0xB0 => (KeyCode::B, KeyState::Up),
        0x31 => (KeyCode::N, KeyState::Down),
        0xB1 => (KeyCode::N, KeyState::Up),
        0x32 => (KeyCode::M, KeyState::Down),
        0xB2 => (KeyCode::M, KeyState::Up),
        0x33 => (KeyCode::Comma, KeyState::Down),
        0xB3 => (KeyCode::Comma, KeyState::Up),
        0x34 => (KeyCode::Period, KeyState::Down),
        0xB4 => (KeyCode::Period, KeyState::Up),
        0x35 => (KeyCode::Slash, KeyState::Down),
        0xB5 => (KeyCode::Slash, KeyState::Up),
        0x36 => (KeyCode::RightShift, KeyState::Down),
        0xB6 => (KeyCode::RightShift, KeyState::Up),
        0x37 => (KeyCode::KeypadAsterisk, KeyState::Down),
        0xB7 => (KeyCode::KeypadAsterisk, KeyState::Up),
        0x38 => (KeyCode::LeftAlt, KeyState::Down),
        0xB8 => (KeyCode::LeftAlt, KeyState::Up),
        0x39 => (KeyCode::Space, KeyState::Down),
        0xB9 => (KeyCode::Space, KeyState::Up),
        0x3A => (KeyCode::CapsLock, KeyState::Down),
        0xBA => (KeyCode::CapsLock, KeyState::Up),
        0x3B => (KeyCode::F1, KeyState::Down),
        0xBB => (KeyCode::F1, KeyState::Up),
        0x3C => (KeyCode::F2, KeyState::Down),
        0xBC => (KeyCode::F2, KeyState::Up),
        0x3D => (KeyCode::F3, KeyState::Down),
        0xBD => (KeyCode::F3, KeyState::Up),
        0x3E => (KeyCode::F4, KeyState::Down),
        0xBE => (KeyCode::F4, KeyState::Up),
        0x3F => (KeyCode::F5, KeyState::Down),
        0xBF => (KeyCode::F5, KeyState::Up),
        0x40 => (KeyCode::F6, KeyState::Down),
        0xC0 => (KeyCode::F6, KeyState::Up),
        0x41 => (KeyCode::F7, KeyState::Down),
        0xC1 => (KeyCode::F7, KeyState::Up),
        0x42 => (KeyCode::F8, KeyState::Down),
        0xC2 => (KeyCode::F8, KeyState::Up),
        0x43 => (KeyCode::F9, KeyState::Down),
        0xC3 => (KeyCode::F9, KeyState::Up),
        0x44 => (KeyCode::F10, KeyState::Down),
        0xC4 => (KeyCode::F10, KeyState::Up),
        0x45 => (KeyCode::NumberLock, KeyState::Down),
        0xC5 => (KeyCode::NumberLock, KeyState::Up),
        0x46 => (KeyCode::ScrollLock, KeyState::Down),
        0xC6 => (KeyCode::ScrollLock, KeyState::Up),
        0x47 => (KeyCode::KeypadSeven, KeyState::Down),
        0xC7 => (KeyCode::KeypadSeven, KeyState::Up),
        0x48 => (KeyCode::KeypadEight, KeyState::Down),
        0xC8 => (KeyCode::KeypadEight, KeyState::Up),
        0x49 => (KeyCode::KeypadNine, KeyState::Down),
        0xC9 => (KeyCode::KeypadNine, KeyState::Up),
        0x4A => (KeyCode::KeypadMinus, KeyState::Down),
        0xCA => (KeyCode::KeypadMinus, KeyState::Up),
        0x4B => (KeyCode::KeypadFour, KeyState::Down),
        0xCB => (KeyCode::KeypadFour, KeyState::Up),
        0x4C => (KeyCode::KeypadFive, KeyState::Down),
        0xCC => (KeyCode::KeypadFive, KeyState::Up),
        0x4D => (KeyCode::KeypadSix, KeyState::Down),
        0xCD => (KeyCode::KeypadSix, KeyState::Up),
        0x4E => (KeyCode::KeypadPlus, KeyState::Down),
        0xCE => (KeyCode::KeypadPlus, KeyState::Up),
        0x4F => (KeyCode::KeypadOne, KeyState::Down),
        0xCF => (KeyCode::KeypadOne, KeyState::Up),
        0x50 => (KeyCode::KeypadTwo, KeyState::Down),
        0xD0 => (KeyCode::KeypadTwo, KeyState::Up),
        0x51 => (KeyCode::KeypadThree, KeyState::Down),
        0xD1 => (KeyCode::KeypadThree, KeyState::Up),
        0x52 => (KeyCode::KeypadZero, KeyState::Down),
        0xD2 => (KeyCode::KeypadZero, KeyState::Up),
        0x53 => (KeyCode::KeypadPeriod, KeyState::Down),
        0xD3 => (KeyCode::KeypadPeriod, KeyState::Up),
        0x57 => (KeyCode::F11, KeyState::Down),
        0xD7 => (KeyCode::F11, KeyState::Up),
        0x58 => (KeyCode::F12, KeyState::Down),
        0xD8 => (KeyCode::F12, KeyState::Up),
        0xE010 => (KeyCode::PreviousTrack, KeyState::Down),
        0xE090 => (KeyCode::PreviousTrack, KeyState::Up),
        0xE019 => (KeyCode::NextTrack, KeyState::Down),
        0xE099 => (KeyCode::NextTrack, KeyState::Up),
        0xE01C => (KeyCode::KeypadEnter, KeyState::Down),
        0xE09C => (KeyCode::KeypadEnter, KeyState::Up),
        0xE01D => (KeyCode::RightControl, KeyState::Down),
        0xE09D => (KeyCode::RightControl, KeyState::Up),
        0xE020 => (KeyCode::Mute, KeyState::Down),
        0xE0A0 => (KeyCode::Mute, KeyState::Up),
        0xE021 => (KeyCode::Calculator, KeyState::Down),
        0xE0A1 => (KeyCode::Calculator, KeyState::Up),
        0xE022 => (KeyCode::Play, KeyState::Down),
        0xE0A2 => (KeyCode::Play, KeyState::Up),
        0xE024 => (KeyCode::Stop, KeyState::Down),
        0xE0A4 => (KeyCode::Stop, KeyState::Up),
        0xE02E => (KeyCode::VolumeDown, KeyState::Down),
        0xE0AE => (KeyCode::VolumeDown, KeyState::Up),
        0xE030 => (KeyCode::VolumeUp, KeyState::Down),
        0xE0B0 => (KeyCode::VolumeUp, KeyState::Up),
        0xE032 => (KeyCode::WWWHome, KeyState::Down),
        0xE0B2 => (KeyCode::WWWHome, KeyState::Up),
        0xE035 => (KeyCode::KeypadSlash, KeyState::Down),
        0xE0B5 => (KeyCode::KeypadSlash, KeyState::Up),
        0xE038 => (KeyCode::RightAlt, KeyState::Down),
        0xE0B8 => (KeyCode::RightAlt, KeyState::Up),
        0xE047 => (KeyCode::Home, KeyState::Down),
        0xE0C7 => (KeyCode::Home, KeyState::Up),
        0xE048 => (KeyCode::CursorUp, KeyState::Down),
        0xE0C8 => (KeyCode::CursorUp, KeyState::Up),
        0xE049 => (KeyCode::PageUp, KeyState::Down),
        0xE0C9 => (KeyCode::PageUp, KeyState::Up),
        0xE04B => (KeyCode::CursorLeft, KeyState::Down),
        0xE0CB => (KeyCode::CursorLeft, KeyState::Up),
        0xE04D => (KeyCode::CursorRight, KeyState::Down),
        0xE0CD => (KeyCode::CursorRight, KeyState::Up),
        0xE04F => (KeyCode::End, KeyState::Down),
        0xE0CF => (KeyCode::End, KeyState::Up),
        0xE050 => (KeyCode::CursorDown, KeyState::Down),
        0xE0D0 => (KeyCode::CursorDown, KeyState::Up),
        0xE051 => (KeyCode::PageDown, KeyState::Down),
        0xE0D1 => (KeyCode::PageDown, KeyState::Up),
        0xE052 => (KeyCode::Insert, KeyState::Down),
        0xE0D2 => (KeyCode::Insert, KeyState::Up),
        0xE053 => (KeyCode::Delete, KeyState::Down),
        0xE0D3 => (KeyCode::Delete, KeyState::Up),
        0xE05B => (KeyCode::LeftGUI, KeyState::Down),
        0xE0DB => (KeyCode::LeftGUI, KeyState::Up),
        0xE05C => (KeyCode::RightGUI, KeyState::Down),
        0xE0DC => (KeyCode::RightGUI, KeyState::Up),
        0xE05D => (KeyCode::Apps, KeyState::Down),
        0xE0DD => (KeyCode::Apps, KeyState::Up),
        0xE05E => (KeyCode::Power, KeyState::Down),
        0xE0DE => (KeyCode::Power, KeyState::Up),
        0xE05F => (KeyCode::Sleep, KeyState::Down),
        0xE0DF => (KeyCode::Sleep, KeyState::Up),
        0xE063 => (KeyCode::Wake, KeyState::Down),
        0xE0E3 => (KeyCode::Wake, KeyState::Up),
        0xE065 => (KeyCode::WWWSearch, KeyState::Down),
        0xE0E5 => (KeyCode::WWWSearch, KeyState::Up),
        0xE066 => (KeyCode::WWWFavorites, KeyState::Down),
        0xE0E6 => (KeyCode::WWWFavorites, KeyState::Up),
        0xE067 => (KeyCode::WWWRefresh, KeyState::Down),
        0xE0E7 => (KeyCode::WWWRefresh, KeyState::Up),
        0xE068 => (KeyCode::WWWStop, KeyState::Down),
        0xE0E8 => (KeyCode::WWWStop, KeyState::Up),
        0xE069 => (KeyCode::WWWForward, KeyState::Down),
        0xE0E9 => (KeyCode::WWWForward, KeyState::Up),
        0xE06A => (KeyCode::WWWBack, KeyState::Down),
        0xE0EA => (KeyCode::WWWBack, KeyState::Up),
        0xE06B => (KeyCode::MyComputer, KeyState::Down),
        0xE0EB => (KeyCode::MyComputer, KeyState::Up),
        0xE06C => (KeyCode::Email, KeyState::Down),
        0xE0EC => (KeyCode::Email, KeyState::Up),
        0xE06D => (KeyCode::MediaSelect, KeyState::Down),
        0xE0ED => (KeyCode::MediaSelect, KeyState::Up),
        0xE02AE037 => (KeyCode::PrintScreen, KeyState::Down),
        0xE0B7E0AA => (KeyCode::PrintScreen, KeyState::Up),
        0x45E19DC5 => (KeyCode::PauseBreak, KeyState::Down),
        _ => (KeyCode::Null, KeyState::Null),
    };
    match key_state {
        (KeyCode::Null, _) => None,
        _ => Some(key_state),
    }
}

/// What is known of the keyboard: the bytes of a scan code that have come
/// so far, and for each key whether it is down.
pub struct Keyboard {
    pub control_flags: u8,
    pub current_byte: u32,
    pub key_map: [(KeyCode, KeyState); 126],
}

/// The scan code that `byte` makes behind the bytes `current_byte` that
/// came before it.
pub open spec fn full_code(current_byte: u32, byte: u8) -> u32 {
    byte as u32 | current_byte
}

/// What is known of the keyboard, with the keys as a sequence.
pub struct KeyboardState {
    pub control_flags: u8,
    pub current_byte: u32,
    pub key_map: Seq<(KeyCode, KeyState)>,
}

impl View for Keyboard {
    type V = KeyboardState;

    open spec fn view(&self) -> KeyboardState {
        KeyboardState {
            control_flags: self.control_flags,
            current_byte: self.current_byte,
            key_map: self.key_map@,
        }
    }
}

impl KeyboardState {
    /// The keyboard after the byte `byte` has come.
    ///
    /// Where the byte ends a scan code, the bytes so far are dropped and
    /// the key takes the state of the scan code. Else the byte is kept
    /// behind the others, of which the oldest is dropped once there are
    /// four.
    pub open spec fn after_byte(self, byte: u8) -> KeyboardState {
        let code = full_code(self.current_byte, byte);
        match key_event(code) {
            Some((key, state)) => KeyboardState {
                control_flags: self.control_flags,
                current_byte: 0,
                key_map: if state != self.key_map[key.ordinal()].1 {
                    self.key_map.update(key.ordinal(), (key, state))
                } else {
                    self.key_map
                },
            },
            None => KeyboardState {
                control_flags: self.control_flags,
                current_byte: code << 8,
                key_map: self.key_map,
            },
        }
    }

    /// The byte `byte` makes the escape key go down, which clears the
    /// screen.
    pub open spec fn clears_screen(self, byte: u8) -> bool {
        let code = full_code(self.current_byte, byte);
        &&& key_event(code) == Some((KeyCode::Escape, KeyState::Down))
        &&& self.key_map[KeyCode::Escape.ordinal()].1 != KeyState::Down
    }
}

impl Keyboard {
    /// A keyboard on which no key is down and no byte has come.
    pub fn new() -> (keyboard: Keyboard)
        ensures
            keyboard.control_flags == 0,
            keyboard.current_byte == 0,
            keyboard.key_map@ == Seq::new(KEYS as nat, |i: int| (KeyCode::Null, KeyState::Up)),
    {
        let keyboard = Keyboard {
            control_flags: 0,
            current_byte: 0,
            key_map: [(KeyCode::Null, KeyState::Up);126],
        };
        assert(keyboard.key_map@ =~= Seq::new(KEYS as nat, |i: int| (KeyCode::Null, KeyState::Up)));
        keyboard
    }

    /// Takes in the byte `scan_code`, which was read from the keyboard,
    /// and says whether the screen is to be cleared.
    pub fn read_byte(&mut self, scan_code: u8) -> (clear: bool)
        ensures
            final(self)@ == old(self)@.after_byte(scan_code),
            clear == old(self)@.clears_screen(scan_code),
    {
        let full_code = scan_code as u32 | self.current_byte;
        let key_code = scan_to_key(full_code);
        let mut clear = false;
        match key_code {
            Some((code, state)) => {
                self.current_byte = 0;
                let (_current_code, current_state) = self.key_map[code.index()];
                if state != current_state {
                    self.key_map[code.index()] = (code, state);
                    if code == KeyCode::Escape && state == KeyState::Down {
                        clear = true;
                    }
                }
            },
            None => {
                self.current_byte = full_code << 8;
            },
        }
        clear
    }
}

} // verus!
