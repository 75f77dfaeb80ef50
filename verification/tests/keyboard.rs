use kernel_writer::frame::{FrameInfo, PixelFormat};
use kernel_writer::keyboard::{DriverStep, KeyDecoder, ScanOutcome};
use kernel_writer::keys::{KeyCode, KeyInput, KEY_CODE_COUNT};
use kernel_writer::writer::FrameBufferWriter;

fn writer() -> FrameBufferWriter {
    let info = FrameInfo {
        byte_len: 80 * 60 * 4,
        width: 80,
        height: 60,
        pixel_format: PixelFormat::Rgb,
        bytes_per_pixel: 4,
        stride: 80,
    };
    FrameBufferWriter::new(vec![0; info.byte_len], info)
}

#[test]
fn key_code_positions() {
    assert_eq!(KEY_CODE_COUNT, 115);
    assert_eq!(KeyCode::from_position(0), KeyCode::AltLeft);
    assert_eq!(KeyCode::from_position(5), KeyCode::ArrowUp);
    assert_eq!(KeyCode::from_position(114), KeyCode::PowerOnTestOk);
    for i in 0..KEY_CODE_COUNT {
        assert_eq!(KeyCode::from_position(i) as u8, i);
    }
}

#[test]
fn driver_step_conversion() {
    assert_eq!(ScanOutcome::from_step(DriverStep::Error), ScanOutcome::DriverError);
    assert_eq!(ScanOutcome::from_step(DriverStep::Incomplete), ScanOutcome::Incomplete);
    assert_eq!(ScanOutcome::from_step(DriverStep::NoKey), ScanOutcome::NoKey);
    assert_eq!(ScanOutcome::from_step(DriverStep::Unicode('q')), ScanOutcome::Key(KeyInput::Unicode('q')));
    assert_eq!(
        ScanOutcome::from_step(DriverStep::RawKey(3)),
        ScanOutcome::Key(KeyInput::RawKey(KeyCode::ArrowLeft))
    );
}

#[test]
fn key_codes_match_the_driver_order() {
    let pairs = [
        (pc_keyboard::KeyCode::AltLeft, KeyCode::AltLeft),
        (pc_keyboard::KeyCode::AltRight, KeyCode::AltRight),
        (pc_keyboard::KeyCode::ArrowDown, KeyCode::ArrowDown),
        (pc_keyboard::KeyCode::ArrowLeft, KeyCode::ArrowLeft),
        (pc_keyboard::KeyCode::ArrowRight, KeyCode::ArrowRight),
        (pc_keyboard::KeyCode::ArrowUp, KeyCode::ArrowUp),
        (pc_keyboard::KeyCode::BackSlash, KeyCode::BackSlash),
        (pc_keyboard::KeyCode::Backspace, KeyCode::Backspace),
        (pc_keyboard::KeyCode::BackTick, KeyCode::BackTick),
        (pc_keyboard::KeyCode::BracketSquareLeft, KeyCode::BracketSquareLeft),
        (pc_keyboard::KeyCode::BracketSquareRight, KeyCode::BracketSquareRight),
        (pc_keyboard::KeyCode::CapsLock, KeyCode::CapsLock),
        (pc_keyboard::KeyCode::Comma, KeyCode::Comma),
        (pc_keyboard::KeyCode::ControlLeft, KeyCode::ControlLeft),
        (pc_keyboard::KeyCode::ControlRight, KeyCode::ControlRight),
        (pc_keyboard::KeyCode::Delete, KeyCode::Delete),
        (pc_keyboard::KeyCode::End, KeyCode::End),
        (pc_keyboard::KeyCode::Enter, KeyCode::Enter),
        (pc_keyboard::KeyCode::Escape, KeyCode::Escape),
        (pc_keyboard::KeyCode::Equals, KeyCode::Equals),
        (pc_keyboard::KeyCode::F1, KeyCode::F1),
        (pc_keyboard::KeyCode::F2, KeyCode::F2),
        (pc_keyboard::KeyCode::F3, KeyCode::F3),
        (pc_keyboard::KeyCode::F4, KeyCode::F4),
        (pc_keyboard::KeyCode::F5, KeyCode::F5),
        (pc_keyboard::KeyCode::F6, KeyCode::F6),
        (pc_keyboard::KeyCode::F7, KeyCode::F7),
        (pc_keyboard::KeyCode::F8, KeyCode::F8),
        (pc_keyboard::KeyCode::F9, KeyCode::F9),
        (pc_keyboard::KeyCode::F10, KeyCode::F10),
        (pc_keyboard::KeyCode::F11, KeyCode::F11),
        (pc_keyboard::KeyCode::F12, KeyCode::F12),
        (pc_keyboard::KeyCode::Fullstop, KeyCode::Fullstop),
        (pc_keyboard::KeyCode::Home, KeyCode::Home),
        (pc_keyboard::KeyCode::Insert, KeyCode::Insert),
        (pc_keyboard::KeyCode::Key1, KeyCode::Key1),
        (pc_keyboard::KeyCode::Key2, KeyCode::Key2),
        (pc_keyboard::KeyCode::Key3, KeyCode::Key3),
        (pc_keyboard::KeyCode::Key4, KeyCode::Key4),
        (pc_keyboard::KeyCode::Key5, KeyCode::Key5),
        (pc_keyboard::KeyCode::Key6, KeyCode::Key6),
        (pc_keyboard::KeyCode::Key7, KeyCode::Key7),
        (pc_keyboard::KeyCode::Key8, KeyCode::Key8),
        (pc_keyboard::KeyCode::Key9, KeyCode::Key9),
        (pc_keyboard::KeyCode::Key0, KeyCode::Key0),
        (pc_keyboard::KeyCode::Menus, KeyCode::Menus),
        (pc_keyboard::KeyCode::Minus, KeyCode::Minus),
        (pc_keyboard::KeyCode::Numpad0, KeyCode::Numpad0),
        (pc_keyboard::KeyCode::Numpad1, KeyCode::Numpad1),
        (pc_keyboard::KeyCode::Numpad2, KeyCode::Numpad2),
        (pc_keyboard::KeyCode::Numpad3, KeyCode::Numpad3),
        (pc_keyboard::KeyCode::Numpad4, KeyCode::Numpad4),
        (pc_keyboard::KeyCode::Numpad5, KeyCode::Numpad5),
        (pc_keyboard::KeyCode::Numpad6, KeyCode::Numpad6),
        (pc_keyboard::KeyCode::Numpad7, KeyCode::Numpad7),
        (pc_keyboard::KeyCode::Numpad8, KeyCode::Numpad8),
        (pc_keyboard::KeyCode::Numpad9, KeyCode::Numpad9),
        (pc_keyboard::KeyCode::NumpadEnter, KeyCode::NumpadEnter),
        (pc_keyboard::KeyCode::NumpadLock, KeyCode::NumpadLock),
        (pc_keyboard::KeyCode::NumpadSlash, KeyCode::NumpadSlash),
        (pc_keyboard::KeyCode::NumpadStar, KeyCode::NumpadStar),
        (pc_keyboard::KeyCode::NumpadMinus, KeyCode::NumpadMinus),
        (pc_keyboard::KeyCode::NumpadPeriod, KeyCode::NumpadPeriod),
        (pc_keyboard::KeyCode::NumpadPlus, KeyCode::NumpadPlus),
        (pc_keyboard::KeyCode::PageDown, KeyCode::PageDown),
        (pc_keyboard::KeyCode::PageUp, KeyCode::PageUp),
        (pc_keyboard::KeyCode::PauseBreak, KeyCode::PauseBreak),
        (pc_keyboard::KeyCode::PrintScreen, KeyCode::PrintScreen),
        (pc_keyboard::KeyCode::ScrollLock, KeyCode::ScrollLock),
        (pc_keyboard::KeyCode::SemiColon, KeyCode::SemiColon),
        (pc_keyboard::KeyCode::ShiftLeft, KeyCode::ShiftLeft),
        (pc_keyboard::KeyCode::ShiftRight, KeyCode::ShiftRight),
        (pc_keyboard::KeyCode::Slash, KeyCode::Slash),
        (pc_keyboard::KeyCode::Spacebar, KeyCode::Spacebar),
        (pc_keyboard::KeyCode::Tab, KeyCode::Tab),
        (pc_keyboard::KeyCode::Quote, KeyCode::Quote),
        (pc_keyboard::KeyCode::WindowsLeft, KeyCode::WindowsLeft),
        (pc_keyboard::KeyCode::WindowsRight, KeyCode::WindowsRight),
        (pc_keyboard::KeyCode::A, KeyCode::A),
        (pc_keyboard::KeyCode::B, KeyCode::B),
        (pc_keyboard::KeyCode::C, KeyCode::C),
        (pc_keyboard::KeyCode::D, KeyCode::D),
        (pc_keyboard::KeyCode::E, KeyCode::E),
        (pc_keyboard::KeyCode::F, KeyCode::F),
        (pc_keyboard::KeyCode::G, KeyCode::G),
        (pc_keyboard::KeyCode::H, KeyCode::H),
        (pc_keyboard::KeyCode::I, KeyCode::I),
        (pc_keyboard::KeyCode::J, KeyCode::J),
        (pc_keyboard::KeyCode::K, KeyCode::K),
        (pc_keyboard::KeyCode::L, KeyCode::L),
        (pc_keyboard::KeyCode::M, KeyCode::M),
        (pc_keyboard::KeyCode::N, KeyCode::N),
        (pc_keyboard::KeyCode::O, KeyCode::O),
        (pc_keyboard::KeyCode::P, KeyCode::P),
        (pc_keyboard::KeyCode::Q, KeyCode::Q),
        (pc_keyboard::KeyCode::R, KeyCode::R),
        (pc_keyboard::KeyCode::S, KeyCode::S),
        (pc_keyboard::KeyCode::T, KeyCode::T),
        (pc_keyboard::KeyCode::U, KeyCode::U),
        (pc_keyboard::KeyCode::V, KeyCode::V),
        (pc_keyboard::KeyCode::W, KeyCode::W),
        (pc_keyboard::KeyCode::X, KeyCode::X),
        (pc_keyboard::KeyCode::Y, KeyCode::Y),
        (pc_keyboard::KeyCode::Z, KeyCode::Z),
        (pc_keyboard::KeyCode::HashTilde, KeyCode::HashTilde),
        (pc_keyboard::KeyCode::PrevTrack, KeyCode::PrevTrack),
        (pc_keyboard::KeyCode::NextTrack, KeyCode::NextTrack),
        (pc_keyboard::KeyCode::Mute, KeyCode::Mute),
        (pc_keyboard::KeyCode::Calculator, KeyCode::Calculator),
        (pc_keyboard::KeyCode::Play, KeyCode::Play),
        (pc_keyboard::KeyCode::Stop, KeyCode::Stop),
        (pc_keyboard::KeyCode::VolumeDown, KeyCode::VolumeDown),
        (pc_keyboard::KeyCode::VolumeUp, KeyCode::VolumeUp),
        (pc_keyboard::KeyCode::WWWHome, KeyCode::WWWHome),
        (pc_keyboard::KeyCode::PowerOnTestOk, KeyCode::PowerOnTestOk),
    ];
    assert_eq!(pairs.len(), KEY_CODE_COUNT as usize);
    for (driver, ours) in pairs {
        assert_eq!(driver as u8, ours as u8);
        assert_eq!(KeyCode::from_position(driver as u8), ours);
        assert_eq!(format!("{:?}", driver), format!("{:?}", ours));
    }
}

#[test]
fn same_bytes_give_same_outcomes() {
    let bytes = [0x2A, 0x1E, 0xE0, 0x48, 0xAA, 0x1E, 0x55, 0x8E, 0x0F];
    let mut a = KeyDecoder::new();
    let mut b = KeyDecoder::new();
    for byte in bytes {
        assert_eq!(a.decode(byte), b.decode(byte));
    }
}

#[test]
fn decodes_press_and_release() {
    let mut d = KeyDecoder::new();
    assert_eq!(d.decode(0x1E), ScanOutcome::Key(KeyInput::Unicode('a')));
    assert_eq!(d.decode(0x9E), ScanOutcome::NoKey);
}

#[test]
fn decodes_extended_arrow() {
    let mut d = KeyDecoder::new();
    assert_eq!(d.decode(0xE0), ScanOutcome::Incomplete);
    assert_eq!(d.decode(0x48), ScanOutcome::Key(KeyInput::RawKey(KeyCode::ArrowUp)));
    assert_eq!(d.decode(0xE0), ScanOutcome::Incomplete);
    assert_eq!(d.decode(0x4B), ScanOutcome::Key(KeyInput::RawKey(KeyCode::ArrowLeft)));
}

#[test]
fn decodes_shifted_letter() {
    let mut d = KeyDecoder::new();
    assert_eq!(d.decode(0x2A), ScanOutcome::NoKey); // shift down
    assert_eq!(d.decode(0x1E), ScanOutcome::Key(KeyInput::Unicode('A')));
    assert_eq!(d.decode(0xAA), ScanOutcome::NoKey); // shift up
    assert_eq!(d.decode(0x1E), ScanOutcome::Key(KeyInput::Unicode('a')));
}

#[test]
fn decodes_backspace_and_tab() {
    let mut d = KeyDecoder::new();
    assert_eq!(d.decode(0x0E), ScanOutcome::Key(KeyInput::Unicode('\u{0008}')));
    assert_eq!(d.decode(0x0F), ScanOutcome::Key(KeyInput::Unicode('\u{0009}')));
}

#[test]
fn unknown_scancode_is_a_driver_error() {
    let mut d = KeyDecoder::new();
    assert_eq!(d.decode(0x55), ScanOutcome::DriverError);
}

#[test]
fn scancodes_drive_the_writer() {
    let mut w = writer();
    let mut d = KeyDecoder::new();
    assert_eq!(
        w.handle_scancode(&mut d, 0x1E),
        (ScanOutcome::Key(KeyInput::Unicode('a')), Ok(Some(KeyInput::Unicode('a'))))
    );
    assert_eq!(w.cursor(), (10, 1));
    assert_eq!(w.handle_scancode(&mut d, 0x9E), (ScanOutcome::NoKey, Ok(None)));
    assert_eq!(w.cursor(), (10, 1));
    assert_eq!(
        w.handle_scancode(&mut d, 0x0E),
        (ScanOutcome::Key(KeyInput::Unicode('\u{0008}')), Ok(Some(KeyInput::Unicode('\u{0008}'))))
    );
    assert_eq!(w.cursor(), (1, 1));
    assert!(w.buffer().iter().all(|b| *b == 0));
    assert_eq!(w.handle_scancode(&mut d, 0xE0), (ScanOutcome::Incomplete, Ok(None)));
    assert_eq!(
        w.handle_scancode(&mut d, 0x50),
        (ScanOutcome::Key(KeyInput::RawKey(KeyCode::ArrowDown)), Ok(Some(KeyInput::RawKey(KeyCode::ArrowDown))))
    );
    assert_eq!(w.cursor(), (1, 19));
}

#[test]
fn no_key_leaves_the_writer_unchanged() {
    let mut w = writer();
    w.write_str("ab");
    let before = w.buffer().to_vec();
    let mut d = KeyDecoder::new();
    assert_eq!(w.handle_scancode(&mut d, 0x8E), (ScanOutcome::NoKey, Ok(None))); // backspace release
    assert_eq!(w.handle_scancode(&mut d, 0x55), (ScanOutcome::DriverError, Ok(None)));
    assert_eq!(w.handle_scancode(&mut d, 0xE0), (ScanOutcome::Incomplete, Ok(None)));
    assert_eq!(w.apply_scan(ScanOutcome::NoKey), Ok(None));
    assert_eq!(w.cursor(), (19, 1));
    assert_eq!(w.buffer(), &before[..]);
}

#[test]
fn scancode_that_cannot_be_applied_is_returned() {
    let mut w = writer();
    w.set_pos(0, 1); // x = 2: a backspace would step below zero
    let mut d = KeyDecoder::new();
    let before = w.buffer().to_vec();
    assert_eq!(
        w.handle_scancode(&mut d, 0x0E),
        (ScanOutcome::Key(KeyInput::Unicode('\u{0008}')), Err(KeyInput::Unicode('\u{0008}')))
    );
    assert_eq!(w.cursor(), (2, 1));
    assert_eq!(w.buffer(), &before[..]);
}
