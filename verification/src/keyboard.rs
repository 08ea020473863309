//! Keyboard events as they cross the ABI: key codes, key states and
//! modifier flags, with their byte encodings.
//!
//! The keyboard MCU reports events as byte pairs over I2C; the firmware
//! reads them and hands the bytes here.  Applications receive events through
//! the `get_key` syscall as the C-layout `KeyEventC` and turn them back into
//! `KeyEvent`.

use vstd::prelude::*;

verus! {

/// Bit of the CapsLock flag in the MCU status register.
pub const KEY_CAPSLOCK: u8 = 0x20;

/// Bit of the NumLock flag in the MCU status register.
pub const KEY_NUMLOCK: u8 = 0x40;

/// Mask of the FIFO count in the MCU status register.
pub const KEY_COUNT_MASK: u8 = 0x1f;

/// Modifier key flags, one bit each.
#[derive(Clone, Copy, Debug, PartialEq, Eq, Structural)]
pub struct Modifiers {
    /// The raw flag bits.
    pub bits: u8,
}

/// Control key bit.
pub const MOD_CTRL: u8 = 1;

/// Alt key bit.
pub const MOD_ALT: u8 = 2;

/// Left shift key bit.
pub const MOD_LSHIFT: u8 = 4;

/// Right shift key bit.
pub const MOD_RSHIFT: u8 = 8;

/// Symbol key bit.
pub const MOD_SYM: u8 = 16;

impl Modifiers {
    /// No modifier held.
    pub fn none() -> (r: Modifiers)
        ensures
            r.bits == 0,
    {
        Modifiers { bits: 0 }
    }

    /// Whether every flag of `other` is set in `self`.
    pub fn contains(&self, other: Modifiers) -> (r: bool)
        ensures
            r == (self.bits & other.bits == other.bits),
    {
        self.bits & other.bits == other.bits
    }
}

/// The reported state of a key.
#[derive(Clone, Copy, Debug, PartialEq, Eq, Structural)]
pub enum KeyState {
    Idle,
    Pressed,
    Hold,
    Released,
}

/// The key state encoded by an MCU state byte; every byte outside the three
/// active states means idle.
pub open spec fn spec_key_state(v: u8) -> KeyState {
    if v == 1 {
        KeyState::Pressed
    } else if v == 2 {
        KeyState::Hold
    } else if v == 3 {
        KeyState::Released
    } else {
        KeyState::Idle
    }
}

impl KeyState {
    /// Decode an MCU state byte.
    pub fn from_byte(v: u8) -> (r: KeyState)
        ensures
            r == spec_key_state(v),
    {
        match v {
            1 => KeyState::Pressed,
            2 => KeyState::Hold,
            3 => KeyState::Released,
            _ => KeyState::Idle,
        }
    }
}

/// A key, as reported over the wire.
///
/// The named variants carry the MCU's scan codes; any other byte stands for
/// the character it encodes.
#[derive(Clone, Copy, Debug, PartialEq, Eq, Structural)]
pub enum KeyCode {
    JoyUp,
    JoyDown,
    JoyLeft,
    JoyRight,
    JoyCenter,
    BtnLeft1,
    BtnRight1,
    BtnLeft2,
    BtnRight2,
    Backspace,
    Tab,
    Enter,
    ModAlt,
    ModShiftLeft,
    ModShiftRight,
    ModSym,
    ModCtrl,
    Esc,
    Left,
    Up,
    Down,
    Right,
    Break,
    Insert,
    Home,
    Del,
    End,
    PageUp,
    PageDown,
    CapsLock,
    F1,
    F2,
    F3,
    F4,
    F5,
    F6,
    F7,
    F8,
    F9,
    F10,
    Char(char),
    Unknown(u8),
}

/// The byte a key code crosses the ABI as.
pub open spec fn spec_code_to_byte(c: KeyCode) -> u8 {
    match c {
        KeyCode::JoyUp => 0x01,
        KeyCode::JoyDown => 0x02,
        KeyCode::JoyLeft => 0x03,
        KeyCode::JoyRight => 0x04,
        KeyCode::JoyCenter => 0x05,
        KeyCode::BtnLeft1 => 0x06,
        KeyCode::BtnRight1 => 0x07,
        KeyCode::BtnLeft2 => 0x11,
        KeyCode::BtnRight2 => 0x12,
        KeyCode::Backspace => 0x08,
        KeyCode::Tab => 0x09,
        KeyCode::Enter => 0x0a,
        KeyCode::ModAlt => 0xa1,
        KeyCode::ModShiftLeft => 0xa2,
        KeyCode::ModShiftRight => 0xa3,
        KeyCode::ModSym => 0xa4,
        KeyCode::ModCtrl => 0xa5,
        KeyCode::Esc => 0xb1,
        KeyCode::Left => 0xb4,
        KeyCode::Up => 0xb5,
        KeyCode::Down => 0xb6,
        KeyCode::Right => 0xb7,
        KeyCode::Break => 0xd0,
        KeyCode::Insert => 0xd1,
        KeyCode::Home => 0xd2,
        KeyCode::Del => 0xd4,
        KeyCode::End => 0xd5,
        KeyCode::PageUp => 0xd6,
        KeyCode::PageDown => 0xd7,
        KeyCode::CapsLock => 0xc1,
        KeyCode::F1 => 0x81,
        KeyCode::F2 => 0x82,
        KeyCode::F3 => 0x83,
        KeyCode::F4 => 0x84,
        KeyCode::F5 => 0x85,
        KeyCode::F6 => 0x86,
        KeyCode::F7 => 0x87,
        KeyCode::F8 => 0x88,
        KeyCode::F9 => 0x89,
        KeyCode::F10 => 0x90,
        KeyCode::Char(ch) => ch as u8,
        KeyCode::Unknown(b) => b,
    }
}

/// The key code a wire byte decodes to.
pub open spec fn spec_code_from_byte(v: u8) -> KeyCode {
    if v == 0x01 {
        KeyCode::JoyUp
    } else if v == 0x02 {
        KeyCode::JoyDown
    } else if v == 0x03 {
        KeyCode::JoyLeft
    } else if v == 0x04 {
        KeyCode::JoyRight
    } else if v == 0x05 {
        KeyCode::JoyCenter
    } else if v == 0x06 {
        KeyCode::BtnLeft1
    } else if v == 0x07 {
        KeyCode::BtnRight1
    } else if v == 0x08 {
        KeyCode::Backspace
    } else if v == 0x09 {
        KeyCode::Tab
    } else if v == 0x0a {
        KeyCode::Enter
    } else if v == 0x11 {
        KeyCode::BtnLeft2
    } else if v == 0x12 {
        KeyCode::BtnRight2
    } else if v == 0xa1 {
        KeyCode::ModAlt
    } else if v == 0xa2 {
        KeyCode::ModShiftLeft
    } else if v == 0xa3 {
        KeyCode::ModShiftRight
    } else if v == 0xa4 {
        KeyCode::ModSym
    } else if v == 0xa5 {
        KeyCode::ModCtrl
    } else if v == 0xb1 {
        KeyCode::Esc
    } else if v == 0xb4 {
        KeyCode::Left
    } else if v == 0xb5 {
        KeyCode::Up
    } else if v == 0xb6 {
        KeyCode::Down
    } else if v == 0xb7 {
        KeyCode::Right
    } else if v == 0xc1 {
        KeyCode::CapsLock
    } else if v == 0xd0 {
        KeyCode::Break
    } else if v == 0xd1 {
        KeyCode::Insert
    } else if v == 0xd2 {
        KeyCode::Home
    } else if v == 0xd4 {
        KeyCode::Del
    } else if v == 0xd5 {
        KeyCode::End
    } else if v == 0xd6 {
        KeyCode::PageUp
    } else if v == 0xd7 {
        KeyCode::PageDown
    } else if v == 0x81 {
        KeyCode::F1
    } else if v == 0x82 {
        KeyCode::F2
    } else if v == 0x83 {
        KeyCode::F3
    } else if v == 0x84 {
        KeyCode::F4
    } else if v == 0x85 {
        KeyCode::F5
    } else if v == 0x86 {
        KeyCode::F6
    } else if v == 0x87 {
        KeyCode::F7
    } else if v == 0x88 {
        KeyCode::F8
    } else if v == 0x89 {
        KeyCode::F9
    } else if v == 0x90 {
        KeyCode::F10
    } else {
        KeyCode::Char(v as char)
    }
}

impl KeyCode {
    /// Encode this key for the wire.
    pub fn to_byte(&self) -> (r: u8)
        ensures
            r == spec_code_to_byte(*self),
    {
        match *self {
            KeyCode::JoyUp => 0x01,
            KeyCode::JoyDown => 0x02,
            KeyCode::JoyLeft => 0x03,
            KeyCode::JoyRight => 0x04,
            KeyCode::JoyCenter => 0x05,
            KeyCode::BtnLeft1 => 0x06,
            KeyCode::BtnRight1 => 0x07,
            KeyCode::BtnLeft2 => 0x11,
            KeyCode::BtnRight2 => 0x12,
            KeyCode::Backspace => 0x08,
            KeyCode::Tab => 0x09,
            KeyCode::Enter => 0x0a,
            KeyCode::ModAlt => 0xa1,
            KeyCode::ModShiftLeft => 0xa2,
            KeyCode::ModShiftRight => 0xa3,
            KeyCode::ModSym => 0xa4,
            KeyCode::ModCtrl => 0xa5,
            KeyCode::Esc => 0xb1,
            KeyCode::Left => 0xb4,
            KeyCode::Up => 0xb5,
            KeyCode::Down => 0xb6,
            KeyCode::Right => 0xb7,
            KeyCode::Break => 0xd0,
            KeyCode::Insert => 0xd1,
            KeyCode::Home => 0xd2,
            KeyCode::Del => 0xd4,
            KeyCode::End => 0xd5,
            KeyCode::PageUp => 0xd6,
            KeyCode::PageDown => 0xd7,
            KeyCode::CapsLock => 0xc1,
            KeyCode::F1 => 0x81,
            KeyCode::F2 => 0x82,
            KeyCode::F3 => 0x83,
            KeyCode::F4 => 0x84,
            KeyCode::F5 => 0x85,
            KeyCode::F6 => 0x86,
            KeyCode::F7 => 0x87,
            KeyCode::F8 => 0x88,
            KeyCode::F9 => 0x89,
            KeyCode::F10 => 0x90,
            KeyCode::Char(ch) => ch as u8,
            KeyCode::Unknown(b) => b,
        }
    }

    /// Decode a wire byte.
    pub fn from_byte(v: u8) -> (r: KeyCode)
        ensures
            r == spec_code_from_byte(v),
    {
        match v {
            0x01 => KeyCode::JoyUp,
            0x02 => KeyCode::JoyDown,
            0x03 => KeyCode::JoyLeft,
            0x04 => KeyCode::JoyRight,
            0x05 => KeyCode::JoyCenter,
            0x06 => KeyCode::BtnLeft1,
            0x07 => KeyCode::BtnRight1,
            0x08 => KeyCode::Backspace,
            0x09 => KeyCode::Tab,
            0x0a => KeyCode::Enter,
            0x11 => KeyCode::BtnLeft2,
            0x12 => KeyCode::BtnRight2,
            0xa1 => KeyCode::ModAlt,
            0xa2 => KeyCode::ModShiftLeft,
            0xa3 => KeyCode::ModShiftRight,
            0xa4 => KeyCode::ModSym,
            0xa5 => KeyCode::ModCtrl,
            0xb1 => KeyCode::Esc,
            0xb4 => KeyCode::Left,
            0xb5 => KeyCode::Up,
            0xb6 => KeyCode::Down,
            0xb7 => KeyCode::Right,
            0xc1 => KeyCode::CapsLock,
            0xd0 => KeyCode::Break,
            0xd1 => KeyCode::Insert,
            0xd2 => KeyCode::Home,
            0xd4 => KeyCode::Del,
            0xd5 => KeyCode::End,
            0xd6 => KeyCode::PageUp,
            0xd7 => KeyCode::PageDown,
            0x81 => KeyCode::F1,
            0x82 => KeyCode::F2,
            0x83 => KeyCode::F3,
            0x84 => KeyCode::F4,
            0x85 => KeyCode::F5,
            0x86 => KeyCode::F6,
            0x87 => KeyCode::F7,
            0x88 => KeyCode::F8,
            0x89 => KeyCode::F9,
            0x90 => KeyCode::F10,
            _ => KeyCode::Char(v as char),
        }
    }
}

/// Decoding a wire byte and encoding the result gives the byte back: no key
/// event is distorted by crossing the ABI.
pub proof fn lemma_code_byte_round_trip(v: u8)
    ensures
        spec_code_to_byte(spec_code_from_byte(v)) == v,
{
}

/// A keyboard event.
#[derive(Clone, Copy, Debug, PartialEq, Eq, Structural)]
pub struct KeyEvent {
    /// Which key.
    pub key: KeyCode,
    /// What happened to it.
    pub state: KeyState,
    /// Which modifiers were held.
    pub mods: Modifiers,
}

/// A keyboard event in its C ABI layout: the key as its wire byte.
#[derive(Clone, Copy, Debug, PartialEq, Eq, Structural)]
pub struct KeyEventC {
    /// The key's wire byte.
    pub key: u8,
    /// What happened to it.
    pub state: KeyState,
    /// Which modifiers were held.
    pub mods: Modifiers,
}

impl KeyEvent {
    /// Encode for the `get_key` syscall.
    pub fn to_c(&self) -> (r: KeyEventC)
        ensures
            r.key == spec_code_to_byte(self.key),
            r.state == self.state,
            r.mods == self.mods,
    {
        KeyEventC { key: self.key.to_byte(), state: self.state, mods: self.mods }
    }

    /// Decode from the `get_key` syscall.
    pub fn from_c(c: &KeyEventC) -> (r: KeyEvent)
        ensures
            r.key == spec_code_from_byte(c.key),
            r.state == c.state,
            r.mods == c.mods,
    {
        KeyEvent { key: KeyCode::from_byte(c.key), state: c.state, mods: c.mods }
    }
}

/// Split the MCU status register byte into the CapsLock flag, the NumLock
/// flag, and the number of queued events.
pub fn decode_key_status(status: u8) -> (r: (bool, bool, u8))
    ensures
        r.0 == (status & KEY_CAPSLOCK == KEY_CAPSLOCK),
        r.1 == (status & KEY_NUMLOCK == KEY_NUMLOCK),
        r.2 == status & KEY_COUNT_MASK,
{
    (
        status & KEY_CAPSLOCK == KEY_CAPSLOCK,
        status & KEY_NUMLOCK == KEY_NUMLOCK,
        status & KEY_COUNT_MASK,
    )
}

/// Build the event a two-byte MCU FIFO record describes: the state byte,
/// then the key byte, with no modifiers.
pub fn event_from_fifo(state_byte: u8, key_byte: u8) -> (r: KeyEvent)
    ensures
        r.key == spec_code_from_byte(key_byte),
        r.state == spec_key_state(state_byte),
        r.mods.bits == 0,
{
    KeyEvent {
        key: KeyCode::from_byte(key_byte),
        state: KeyState::from_byte(state_byte),
        mods: Modifiers::none(),
    }
}

} // verus!
