//! Decoding of PS/2 scan code set 1 bytes into key presses, through the
//! `pc_keyboard` driver with the US 104-key layout.

use vstd::prelude::*;
use pc_keyboard::layouts::Us104Key;
use pc_keyboard::{Keyboard, ScancodeSet1};
use crate::keys::{key_code_at, key_ok, key_state, KeyCode, KeyInput, KEY_CODE_COUNT};
use crate::writer::{FrameBufferWriter, WriterState};

verus! {

/// What the driver made of one scan code byte, as plain values: a raw key is
/// given as the position of its key code among the driver's key codes.
#[derive(Clone, Copy, Debug, PartialEq, Eq)]
pub enum DriverStep {
    /// The byte could not be decoded.
    Error,
    /// The byte does not complete a key event yet.
    Incomplete,
    /// The byte completes a key event that gives no key press.
    NoKey,
    /// The byte completes a key press with this character.
    Unicode(char),
    /// The byte completes a press of the key at this position.
    RawKey(u8),
}

/// The bytes fed to the decoder's driver since it was made, in order.
pub uninterp spec fn fed_bytes(decoder: KeyDecoder) -> Seq<u8>;

/// What a `pc_keyboard` driver for the US 104-key layout and scan code set 1,
/// made with control keys passed through and fed `bytes` from its initial state,
/// makes of the last of them.
pub uninterp spec fn us104_set1_step(bytes: Seq<u8>) -> DriverStep;

/// What the driver made of one scan code byte.
#[derive(Clone, Copy, Debug, PartialEq, Eq)]
pub enum ScanOutcome {
    /// The byte could not be decoded.
    DriverError,
    /// The byte does not complete a key event yet.
    Incomplete,
    /// The byte completes a key event that gives no key press, such as a release
    /// or a modifier key.
    NoKey,
    /// The byte completes this key press.
    Key(KeyInput),
}

/// The result of applying a scan outcome in state `s`: a key press that can be
/// applied comes back applied, one that cannot comes back as an error, and no key
/// press gives nothing.
pub open spec fn scan_result(s: WriterState, outcome: ScanOutcome) -> Result<Option<KeyInput>, KeyInput> {
    match outcome {
        ScanOutcome::Key(key) => if key_ok(s, key) {
            Ok(Some(key))
        } else {
            Err(key)
        },
        _ => Ok(None),
    }
}

/// The state after applying a scan outcome in state `s`: only a key press that
/// can be applied changes it.
pub open spec fn scan_state(s: WriterState, outcome: ScanOutcome) -> WriterState {
    match outcome {
        ScanOutcome::Key(key) => if key_ok(s, key) {
            key_state(s, key)
        } else {
            s
        },
        _ => s,
    }
}

/// Calls `pc_keyboard::Keyboard::new` with the US 104-key layout, scan code set 1
/// and control keys passed through. Trusted: no byte has been fed to it.
#[verifier::external_body]
fn us104_decoder() -> (d: KeyDecoder)
    ensures
        fed_bytes(d) == Seq::<u8>::empty(),
{
    KeyDecoder { keyboard: Keyboard::new(Us104Key, ScancodeSet1, pc_keyboard::HandleControl::Ignore) }
}

/// Feeds `byte` to the driver: calls `pc_keyboard::Keyboard::add_byte` and, on a
/// complete key event, `pc_keyboard::Keyboard::process_keyevent` on that event,
/// as the driver's documentation asks of every event that `add_byte` returns.
/// A raw key comes back as the position of its `KeyCode` variant in declaration
/// order (the number Rust gives a variant of a field-less enum). Trusted: the byte
/// is appended to `fed_bytes`; what comes back is `us104_set1_step` of the bytes
/// fed so far (the driver's state, its pending extended code and its modifier
/// keys, is set by those bytes alone, as the decoder feeds every event on);
/// a raw key's position is below `KEY_CODE_COUNT`, the number of `KeyCode`
/// variants in `pc_keyboard` 0.5.1.
#[verifier::external_body]
fn feed_byte(decoder: &mut KeyDecoder, byte: u8) -> (step: DriverStep)
    ensures
        fed_bytes(*final(decoder)) == fed_bytes(*old(decoder)).push(byte),
        step == us104_set1_step(fed_bytes(*final(decoder))),
        step matches DriverStep::RawKey(i) ==> i < KEY_CODE_COUNT,
{
    match decoder.keyboard.add_byte(byte) {
        Err(_) => DriverStep::Error,
        Ok(None) => DriverStep::Incomplete,
        Ok(Some(event)) => match decoder.keyboard.process_keyevent(event) {
            None => DriverStep::NoKey,
            Some(pc_keyboard::DecodedKey::Unicode(c)) => DriverStep::Unicode(c),
            Some(pc_keyboard::DecodedKey::RawKey(code)) => DriverStep::RawKey(code as u8),
        },
    }
}

/// The scan outcome a driver step stands for.
pub open spec fn step_outcome(step: DriverStep) -> ScanOutcome {
    match step {
        DriverStep::Error => ScanOutcome::DriverError,
        DriverStep::Incomplete => ScanOutcome::Incomplete,
        DriverStep::NoKey => ScanOutcome::NoKey,
        DriverStep::Unicode(c) => ScanOutcome::Key(KeyInput::Unicode(c)),
        DriverStep::RawKey(i) => ScanOutcome::Key(KeyInput::RawKey(key_code_at(i))),
    }
}

impl ScanOutcome {
    /// The scan outcome a driver step stands for.
    pub fn from_step(step: DriverStep) -> (outcome: ScanOutcome)
        requires
            step matches DriverStep::RawKey(i) ==> i < KEY_CODE_COUNT,
        ensures
            outcome == step_outcome(step),
    {
        match step {
            DriverStep::Error => ScanOutcome::DriverError,
            DriverStep::Incomplete => ScanOutcome::Incomplete,
            DriverStep::NoKey => ScanOutcome::NoKey,
            DriverStep::Unicode(c) => ScanOutcome::Key(KeyInput::Unicode(c)),
            DriverStep::RawKey(i) => ScanOutcome::Key(KeyInput::RawKey(KeyCode::from_position(i))),
        }
    }
}

/// Turns the scan code bytes read from the keyboard controller into key presses.
/// It holds the `pc_keyboard` driver, whose state (a pending extended code, the
/// modifier keys held) is set by the bytes fed to it, `fed_bytes`.
#[verifier::external_body]
pub struct KeyDecoder {
    keyboard: Keyboard<Us104Key, ScancodeSet1>,
}

impl KeyDecoder {
    /// A decoder in its initial state, fed nothing yet.
    pub fn new() -> (d: KeyDecoder)
        ensures
            fed_bytes(d) == Seq::<u8>::empty(),
    {
        us104_decoder()
    }

    /// Feeds one scan code byte to the driver and reports what it made of it.
    pub fn decode(&mut self, scancode: u8) -> (outcome: ScanOutcome)
        ensures
            fed_bytes(*final(self)) == fed_bytes(*old(self)).push(scancode),
            outcome == step_outcome(us104_set1_step(fed_bytes(*final(self)))),
    {
        let step = feed_byte(self, scancode);
        ScanOutcome::from_step(step)
    }
}

impl FrameBufferWriter {
    /// Applies what the driver made of a scan code byte; see `scan_result` and
    /// `scan_state`.
    pub fn apply_scan(&mut self, outcome: ScanOutcome) -> (r: Result<Option<KeyInput>, KeyInput>)
        ensures
            r == scan_result(old(self)@, outcome),
            final(self)@ == scan_state(old(self)@, outcome),
    {
        match outcome {
            ScanOutcome::Key(key) => {
                if self.handle_key_fits(key) {
                    self.handle_key(key);
                    Ok(Some(key))
                } else {
                    Err(key)
                }
            },
            _ => Ok(None),
        }
    }

    /// Handles one scan code byte from the keyboard: the decoder reports what it
    /// made of the byte, and that outcome is applied to the screen. Both come back.
    pub fn handle_scancode(&mut self, decoder: &mut KeyDecoder, scancode: u8) -> (r: (
        ScanOutcome,
        Result<Option<KeyInput>, KeyInput>,
    ))
        ensures
            fed_bytes(*final(decoder)) == fed_bytes(*old(decoder)).push(scancode),
            r.0 == step_outcome(us104_set1_step(fed_bytes(*final(decoder)))),
            r.1 == scan_result(old(self)@, r.0),
            final(self)@ == scan_state(old(self)@, r.0),
    {
        let outcome = decoder.decode(scancode);
        let result = self.apply_scan(outcome);
        (outcome, result)
    }
}

} // verus!
