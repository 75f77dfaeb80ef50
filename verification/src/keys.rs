//! What a decoded key press does to the text on screen.

use vstd::prelude::*;
use crate::writer::{
    arrow_down_state, arrow_left_state, arrow_right_state, arrow_up_state, backspace_ok,
    backspace_state, line_height, tab_ok, tab_state, write_char_ok, write_char_state,
    FrameBufferWriter, WriterState, BORDER_PADDING, LINE_SPACING,
};
use crate::font::{char_raster_width, char_width, CHAR_RASTER_HEIGHT};

verus! {

/// A key as the keyboard reports it, whether or not it has a character.
#[derive(Clone, Copy, Debug, PartialEq, Eq)]
pub enum KeyCode {
    AltLeft,
    AltRight,
    ArrowDown,
    ArrowLeft,
    ArrowRight,
    ArrowUp,
    BackSlash,
    Backspace,
    BackTick,
    BracketSquareLeft,
    BracketSquareRight,
    CapsLock,
    Comma,
    ControlLeft,
    ControlRight,
    Delete,
    End,
    Enter,
    Escape,
    Equals,
    F1,
    F2,
    F3,
    F4,
    F5,
    F6,
    F7,
    F8,
    F9,
    F10,
    F11,
    F12,
    Fullstop,
    Home,
    Insert,
    Key1,
    Key2,
    Key3,
    Key4,
    Key5,
    Key6,
    Key7,
    Key8,
    Key9,
    Key0,
    Menus,
    Minus,
    Numpad0,
    Numpad1,
    Numpad2,
    Numpad3,
    Numpad4,
    Numpad5,
    Numpad6,
    Numpad7,
    Numpad8,
    Numpad9,
    NumpadEnter,
    NumpadLock,
    NumpadSlash,
    NumpadStar,
    NumpadMinus,
    NumpadPeriod,
    NumpadPlus,
    PageDown,
    PageUp,
    PauseBreak,
    PrintScreen,
    ScrollLock,
    SemiColon,
    ShiftLeft,
    ShiftRight,
    Slash,
    Spacebar,
    Tab,
    Quote,
    WindowsLeft,
    WindowsRight,
    A,
    B,
    C,
    D,
    E,
    F,
    G,
    H,
    I,
    J,
    K,
    L,
    M,
    N,
    O,
    P,
    Q,
    R,
    S,
    T,
    U,
    V,
    W,
    X,
    Y,
    Z,
    HashTilde,
    PrevTrack,
    NextTrack,
    Mute,
    Calculator,
    Play,
    Stop,
    VolumeDown,
    VolumeUp,
    WWWHome,
    PowerOnTestOk,
}

/// Number of key codes.
pub const KEY_CODE_COUNT: u8 = 115;

/// The key code at position `i` among the variants, in declaration order; the
/// last one for positions past the end.
pub open spec fn key_code_at(i: u8) -> KeyCode {
    match i {
        0 => KeyCode::AltLeft,
        1 => KeyCode::AltRight,
        2 => KeyCode::ArrowDown,
        3 => KeyCode::ArrowLeft,
        4 => KeyCode::ArrowRight,
        5 => KeyCode::ArrowUp,
        6 => KeyCode::BackSlash,
        7 => KeyCode::Backspace,
        8 => KeyCode::BackTick,
        9 => KeyCode::BracketSquareLeft,
        10 => KeyCode::BracketSquareRight,
        11 => KeyCode::CapsLock,
        12 => KeyCode::Comma,
        13 => KeyCode::ControlLeft,
        14 => KeyCode::ControlRight,
        15 => KeyCode::Delete,
        16 => KeyCode::End,
        17 => KeyCode::Enter,
        18 => KeyCode::Escape,
        19 => KeyCode::Equals,
        20 => KeyCode::F1,
        21 => KeyCode::F2,
        22 => KeyCode::F3,
        23 => KeyCode::F4,
        24 => KeyCode::F5,
        25 => KeyCode::F6,
        26 => KeyCode::F7,
        27 => KeyCode::F8,
        28 => KeyCode::F9,
        29 => KeyCode::F10,
        30 => KeyCode::F11,
        31 => KeyCode::F12,
        32 => KeyCode::Fullstop,
        33 => KeyCode::Home,
        34 => KeyCode::Insert,
        35 => KeyCode::Key1,
        36 => KeyCode::Key2,
        37 => KeyCode::Key3,
        38 => KeyCode::Key4,
        39 => KeyCode::Key5,
        40 => KeyCode::Key6,
        41 => KeyCode::Key7,
        42 => KeyCode::Key8,
        43 => KeyCode::Key9,
        44 => KeyCode::Key0,
        45 => KeyCode::Menus,
        46 => KeyCode::Minus,
        47 => KeyCode::Numpad0,
        48 => KeyCode::Numpad1,
        49 => KeyCode::Numpad2,
        50 => KeyCode::Numpad3,
        51 => KeyCode::Numpad4,
        52 => KeyCode::Numpad5,
        53 => KeyCode::Numpad6,
        54 => KeyCode::Numpad7,
        55 => KeyCode::Numpad8,
        56 => KeyCode::Numpad9,
        57 => KeyCode::NumpadEnter,
        58 => KeyCode::NumpadLock,
        59 => KeyCode::NumpadSlash,
        60 => KeyCode::NumpadStar,
        61 => KeyCode::NumpadMinus,
        62 => KeyCode::NumpadPeriod,
        63 => KeyCode::NumpadPlus,
        64 => KeyCode::PageDown,
        65 => KeyCode::PageUp,
        66 => KeyCode::PauseBreak,
        67 => KeyCode::PrintScreen,
        68 => KeyCode::ScrollLock,
        69 => KeyCode::SemiColon,
        70 => KeyCode::ShiftLeft,
        71 => KeyCode::ShiftRight,
        72 => KeyCode::Slash,
        73 => KeyCode::Spacebar,
        74 => KeyCode::Tab,
        75 => KeyCode::Quote,
        76 => KeyCode::WindowsLeft,
        77 => KeyCode::WindowsRight,
        78 => KeyCode::A,
        79 => KeyCode::B,
        80 => KeyCode::C,
        81 => KeyCode::D,
        82 => KeyCode::E,
        83 => KeyCode::F,
        84 => KeyCode::G,
        85 => KeyCode::H,
        86 => KeyCode::I,
        87 => KeyCode::J,
        88 => KeyCode::K,
        89 => KeyCode::L,
        90 => KeyCode::M,
        91 => KeyCode::N,
        92 => KeyCode::O,
        93 => KeyCode::P,
        94 => KeyCode::Q,
        95 => KeyCode::R,
        96 => KeyCode::S,
        97 => KeyCode::T,
        98 => KeyCode::U,
        99 => KeyCode::V,
        100 => KeyCode::W,
        101 => KeyCode::X,
        102 => KeyCode::Y,
        103 => KeyCode::Z,
        104 => KeyCode::HashTilde,
        105 => KeyCode::PrevTrack,
        106 => KeyCode::NextTrack,
        107 => KeyCode::Mute,
        108 => KeyCode::Calculator,
        109 => KeyCode::Play,
        110 => KeyCode::Stop,
        111 => KeyCode::VolumeDown,
        112 => KeyCode::VolumeUp,
        113 => KeyCode::WWWHome,
        _ => KeyCode::PowerOnTestOk,
    }
}

impl KeyCode {
    /// Position of the key code among the variants, in declaration order.
    pub open spec fn position(self) -> u8 {
        match self {
            KeyCode::AltLeft => 0,
            KeyCode::AltRight => 1,
            KeyCode::ArrowDown => 2,
            KeyCode::ArrowLeft => 3,
            KeyCode::ArrowRight => 4,
            KeyCode::ArrowUp => 5,
            KeyCode::BackSlash => 6,
            KeyCode::Backspace => 7,
            KeyCode::BackTick => 8,
            KeyCode::BracketSquareLeft => 9,
            KeyCode::BracketSquareRight => 10,
            KeyCode::CapsLock => 11,
            KeyCode::Comma => 12,
            KeyCode::ControlLeft => 13,
            KeyCode::ControlRight => 14,
            KeyCode::Delete => 15,
            KeyCode::End => 16,
            KeyCode::Enter => 17,
            KeyCode::Escape => 18,
            KeyCode::Equals => 19,
            KeyCode::F1 => 20,
            KeyCode::F2 => 21,
            KeyCode::F3 => 22,
            KeyCode::F4 => 23,
            KeyCode::F5 => 24,
            KeyCode::F6 => 25,
            KeyCode::F7 => 26,
            KeyCode::F8 => 27,
            KeyCode::F9 => 28,
            KeyCode::F10 => 29,
            KeyCode::F11 => 30,
            KeyCode::F12 => 31,
            KeyCode::Fullstop => 32,
            KeyCode::Home => 33,
            KeyCode::Insert => 34,
            KeyCode::Key1 => 35,
            KeyCode::Key2 => 36,
            KeyCode::Key3 => 37,
            KeyCode::Key4 => 38,
            KeyCode::Key5 => 39,
            KeyCode::Key6 => 40,
            KeyCode::Key7 => 41,
            KeyCode::Key8 => 42,
            KeyCode::Key9 => 43,
            KeyCode::Key0 => 44,
            KeyCode::Menus => 45,
            KeyCode::Minus => 46,
            KeyCode::Numpad0 => 47,
            KeyCode::Numpad1 => 48,
            KeyCode::Numpad2 => 49,
            KeyCode::Numpad3 => 50,
            KeyCode::Numpad4 => 51,
            KeyCode::Numpad5 => 52,
            KeyCode::Numpad6 => 53,
            KeyCode::Numpad7 => 54,
            KeyCode::Numpad8 => 55,
            KeyCode::Numpad9 => 56,
            KeyCode::NumpadEnter => 57,
            KeyCode::NumpadLock => 58,
            KeyCode::NumpadSlash => 59,
            KeyCode::NumpadStar => 60,
            KeyCode::NumpadMinus => 61,
            KeyCode::NumpadPeriod => 62,
            KeyCode::NumpadPlus => 63,
            KeyCode::PageDown => 64,
            KeyCode::PageUp => 65,
            KeyCode::PauseBreak => 66,
            KeyCode::PrintScreen => 67,
            KeyCode::ScrollLock => 68,
            KeyCode::SemiColon => 69,
            KeyCode::ShiftLeft => 70,
            KeyCode::ShiftRight => 71,
            KeyCode::Slash => 72,
            KeyCode::Spacebar => 73,
            KeyCode::Tab => 74,
            KeyCode::Quote => 75,
            KeyCode::WindowsLeft => 76,
            KeyCode::WindowsRight => 77,
            KeyCode::A => 78,
            KeyCode::B => 79,
            KeyCode::C => 80,
            KeyCode::D => 81,
            KeyCode::E => 82,
            KeyCode::F => 83,
            KeyCode::G => 84,
            KeyCode::H => 85,
            KeyCode::I => 86,
            KeyCode::J => 87,
            KeyCode::K => 88,
            KeyCode::L => 89,
            KeyCode::M => 90,
            KeyCode::N => 91,
            KeyCode::O => 92,
            KeyCode::P => 93,
            KeyCode::Q => 94,
            KeyCode::R => 95,
            KeyCode::S => 96,
            KeyCode::T => 97,
            KeyCode::U => 98,
            KeyCode::V => 99,
            KeyCode::W => 100,
            KeyCode::X => 101,
            KeyCode::Y => 102,
            KeyCode::Z => 103,
            KeyCode::HashTilde => 104,
            KeyCode::PrevTrack => 105,
            KeyCode::NextTrack => 106,
            KeyCode::Mute => 107,
            KeyCode::Calculator => 108,
            KeyCode::Play => 109,
            KeyCode::Stop => 110,
            KeyCode::VolumeDown => 111,
            KeyCode::VolumeUp => 112,
            KeyCode::WWWHome => 113,
            KeyCode::PowerOnTestOk => 114,
        }
    }

    /// The key code at position `i` among the variants.
    pub fn from_position(i: u8) -> (k: KeyCode)
        requires
            i < KEY_CODE_COUNT,
        ensures
            k == key_code_at(i),
            k.position() == i,
    {
        match i {
            0 => KeyCode::AltLeft,
            1 => KeyCode::AltRight,
            2 => KeyCode::ArrowDown,
            3 => KeyCode::ArrowLeft,
            4 => KeyCode::ArrowRight,
            5 => KeyCode::ArrowUp,
            6 => KeyCode::BackSlash,
            7 => KeyCode::Backspace,
            8 => KeyCode::BackTick,
            9 => KeyCode::BracketSquareLeft,
            10 => KeyCode::BracketSquareRight,
            11 => KeyCode::CapsLock,
            12 => KeyCode::Comma,
            13 => KeyCode::ControlLeft,
            14 => KeyCode::ControlRight,
            15 => KeyCode::Delete,
            16 => KeyCode::End,
            17 => KeyCode::Enter,
            18 => KeyCode::Escape,
            19 => KeyCode::Equals,
            20 => KeyCode::F1,
            21 => KeyCode::F2,
            22 => KeyCode::F3,
            23 => KeyCode::F4,
            24 => KeyCode::F5,
            25 => KeyCode::F6,
            26 => KeyCode::F7,
            27 => KeyCode::F8,
            28 => KeyCode::F9,
            29 => KeyCode::F10,
            30 => KeyCode::F11,
            31 => KeyCode::F12,
            32 => KeyCode::Fullstop,
            33 => KeyCode::Home,
            34 => KeyCode::Insert,
            35 => KeyCode::Key1,
            36 => KeyCode::Key2,
            37 => KeyCode::Key3,
            38 => KeyCode::Key4,
            39 => KeyCode::Key5,
            40 => KeyCode::Key6,
            41 => KeyCode::Key7,
            42 => KeyCode::Key8,
            43 => KeyCode::Key9,
            44 => KeyCode::Key0,
            45 => KeyCode::Menus,
            46 => KeyCode::Minus,
            47 => KeyCode::Numpad0,
            48 => KeyCode::Numpad1,
            49 => KeyCode::Numpad2,
            50 => KeyCode::Numpad3,
            51 => KeyCode::Numpad4,
            52 => KeyCode::Numpad5,
            53 => KeyCode::Numpad6,
            54 => KeyCode::Numpad7,
            55 => KeyCode::Numpad8,
            56 => KeyCode::Numpad9,
            57 => KeyCode::NumpadEnter,
            58 => KeyCode::NumpadLock,
            59 => KeyCode::NumpadSlash,
            60 => KeyCode::NumpadStar,
            61 => KeyCode::NumpadMinus,
            62 => KeyCode::NumpadPeriod,
            63 => KeyCode::NumpadPlus,
            64 => KeyCode::PageDown,
            65 => KeyCode::PageUp,
            66 => KeyCode::PauseBreak,
            67 => KeyCode::PrintScreen,
            68 => KeyCode::ScrollLock,
            69 => KeyCode::SemiColon,
            70 => KeyCode::ShiftLeft,
            71 => KeyCode::ShiftRight,
            72 => KeyCode::Slash,
            73 => KeyCode::Spacebar,
            74 => KeyCode::Tab,
            75 => KeyCode::Quote,
            76 => KeyCode::WindowsLeft,
            77 => KeyCode::WindowsRight,
            78 => KeyCode::A,
            79 => KeyCode::B,
            80 => KeyCode::C,
            81 => KeyCode::D,
            82 => KeyCode::E,
            83 => KeyCode::F,
            84 => KeyCode::G,
            85 => KeyCode::H,
            86 => KeyCode::I,
            87 => KeyCode::J,
            88 => KeyCode::K,
            89 => KeyCode::L,
            90 => KeyCode::M,
            91 => KeyCode::N,
            92 => KeyCode::O,
            93 => KeyCode::P,
            94 => KeyCode::Q,
            95 => KeyCode::R,
            96 => KeyCode::S,
            97 => KeyCode::T,
            98 => KeyCode::U,
            99 => KeyCode::V,
            100 => KeyCode::W,
            101 => KeyCode::X,
            102 => KeyCode::Y,
            103 => KeyCode::Z,
            104 => KeyCode::HashTilde,
            105 => KeyCode::PrevTrack,
            106 => KeyCode::NextTrack,
            107 => KeyCode::Mute,
            108 => KeyCode::Calculator,
            109 => KeyCode::Play,
            110 => KeyCode::Stop,
            111 => KeyCode::VolumeDown,
            112 => KeyCode::VolumeUp,
            113 => KeyCode::WWWHome,
            _ => KeyCode::PowerOnTestOk,
        }
    }
}

/// A decoded key press: a character, or a key without one.
#[derive(Clone, Copy, Debug, PartialEq, Eq)]
pub enum KeyInput {
    Unicode(char),
    RawKey(KeyCode),
}

/// The character the keyboard sends for the backspace key.
pub const BACKSPACE_CHAR: char = '\u{0008}';

/// The character the keyboard sends for the tab key.
pub const TAB_CHAR: char = '\u{0009}';

/// The state after the key press: backspace erases, tab advances, any other
/// character is written, the arrow keys move the cursor, and other keys without a
/// character do nothing.
pub open spec fn key_state(s: WriterState, key: KeyInput) -> WriterState {
    match key {
        KeyInput::Unicode(ch) => if ch == BACKSPACE_CHAR {
            backspace_state(s)
        } else if ch == TAB_CHAR {
            tab_state(s)
        } else {
            write_char_state(s, ch)
        },
        KeyInput::RawKey(k) => match k {
            KeyCode::ArrowUp => arrow_up_state(s),
            KeyCode::ArrowDown => arrow_down_state(s),
            KeyCode::ArrowRight => arrow_right_state(s),
            KeyCode::ArrowLeft => arrow_left_state(s),
            _ => s,
        },
    }
}

/// Whether handling the key press in state `s` completes.
pub open spec fn key_ok(s: WriterState, key: KeyInput) -> bool {
    match key {
        KeyInput::Unicode(ch) => if ch == BACKSPACE_CHAR {
            backspace_ok(s)
        } else if ch == TAB_CHAR {
            tab_ok(s)
        } else {
            write_char_ok(s, ch)
        },
        KeyInput::RawKey(k) => match k {
            KeyCode::ArrowUp => s.y > BORDER_PADDING ==> s.y >= line_height(),
            KeyCode::ArrowDown => s.y + line_height() <= usize::MAX,
            KeyCode::ArrowRight => s.x + char_width() <= usize::MAX,
            KeyCode::ArrowLeft => s.x > BORDER_PADDING ==> s.x >= char_width(),
            _ => true,
        },
    }
}

impl FrameBufferWriter {
    /// Applies a decoded key press to the screen; see `key_state`.
    pub fn handle_key(&mut self, key: KeyInput)
        requires
            key_ok(old(self)@, key),
        ensures
            final(self)@ == key_state(old(self)@, key),
    {
        match key {
            KeyInput::Unicode(character) => {
                if character == BACKSPACE_CHAR {
                    self.backspace();
                } else if character == TAB_CHAR {
                    self.tab();
                } else {
                    self.write_char(character);
                }
            },
            KeyInput::RawKey(key) => {
                match key {
                    KeyCode::ArrowUp => self.arrow_up(),
                    KeyCode::ArrowDown => self.arrow_down(),
                    KeyCode::ArrowRight => self.arrow_right(),
                    KeyCode::ArrowLeft => self.arrow_left(),
                    _ => {},
                }
            },
        }
    }

    /// Whether `handle_key(key)` completes from the current state.
    pub fn handle_key_fits(&self, key: KeyInput) -> (r: bool)
        ensures
            r == key_ok(self@, key),
    {
        let (x, y) = self.cursor();
        let line = CHAR_RASTER_HEIGHT.val() + LINE_SPACING;
        match key {
            KeyInput::Unicode(character) => {
                if character == BACKSPACE_CHAR {
                    self.backspace_fits()
                } else if character == TAB_CHAR {
                    self.tab_fits()
                } else {
                    self.write_char_fits(character)
                }
            },
            KeyInput::RawKey(k) => match k {
                KeyCode::ArrowUp => !(y > BORDER_PADDING) || y >= line,
                KeyCode::ArrowDown => y.checked_add(line).is_some(),
                KeyCode::ArrowRight => x.checked_add(char_raster_width()).is_some(),
                KeyCode::ArrowLeft => !(x > BORDER_PADDING) || x >= char_raster_width(),
                _ => true,
            },
        }
    }
}

} // verus!
