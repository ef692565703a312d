//! Key identities and their classification.
//!
//! Every key position in the matrix maps to one identity out of a closed
//! enumeration. Each identity falls in exactly one class: the empty identity,
//! an error sentinel reported to the host in place of key codes, a modifier
//! carrying a single bit of the report's modifier byte, or a normal key that
//! occupies one of the six key slots of a report.

use vstd::prelude::*;

verus! {

/// The wire value of the rollover error sentinel.
pub const ROLLOVER_CODE: u8 = 0x01;

/// A key identity, named after the HID keyboard/keypad usage it encodes to.
#[derive(Clone, Copy, Debug, PartialEq, Eq, Structural)]
pub enum KeyCode {
    Empty,
    ErrorRollOver,
    PostFail,
    ErrorUndefined,
    A,
    B,
    C,
    D,
    E,
    F,
    G,
    H,
    I,
    J,
    K,
    L,
    M,
    N,
    O,
    P,
    Q,
    R,
    S,
    T,
    U,
    V,
    W,
    X,
    Y,
    Z,
    Kb1,
    Kb2,
    Kb3,
    Kb4,
    Kb5,
    Kb6,
    Kb7,
    Kb8,
    Kb9,
    Kb0,
    Enter,
    Escape,
    Backspace,
    Tab,
    Space,
    Minus,
    Equal,
    LeftBracket,
    RightBracket,
    Backslash,
    Semicolon,
    Apostrophe,
    Grave,
    Comma,
    Period,
    Slash,
    CapsLock,
    F1,
    F2,
    F3,
    F4,
    F5,
    F6,
    F7,
    F8,
    F9,
    F10,
    F11,
    F12,
    PrintScreen,
    ScrollLock,
    Pause,
    Insert,
    Home,
    PageUp,
    Delete,
    End,
    PageDown,
    Right,
    Left,
    Down,
    Up,
    Application,
    LeftControl,
    LeftShift,
    LeftAlt,
    LeftGui,
    RightControl,
    RightShift,
    RightAlt,
    RightGui,
}

impl KeyCode {
    /// The byte this identity encodes to on the wire.
    pub open spec fn code_spec(self) -> u8 {
        match self {
            KeyCode::Empty => 0x00,
            KeyCode::ErrorRollOver => 0x01,
            KeyCode::PostFail => 0x02,
            KeyCode::ErrorUndefined => 0x03,
            KeyCode::A => 0x04,
            KeyCode::B => 0x05,
            KeyCode::C => 0x06,
            KeyCode::D => 0x07,
            KeyCode::E => 0x08,
            KeyCode::F => 0x09,
            KeyCode::G => 0x0a,
            KeyCode::H => 0x0b,
            KeyCode::I => 0x0c,
            KeyCode::J => 0x0d,
            KeyCode::K => 0x0e,
            KeyCode::L => 0x0f,
            KeyCode::M => 0x10,
            KeyCode::N => 0x11,
            KeyCode::O => 0x12,
            KeyCode::P => 0x13,
            KeyCode::Q => 0x14,
            KeyCode::R => 0x15,
            KeyCode::S => 0x16,
            KeyCode::T => 0x17,
            KeyCode::U => 0x18,
            KeyCode::V => 0x19,
            KeyCode::W => 0x1a,
            KeyCode::X => 0x1b,
            KeyCode::Y => 0x1c,
            KeyCode::Z => 0x1d,
            KeyCode::Kb1 => 0x1e,
            KeyCode::Kb2 => 0x1f,
            KeyCode::Kb3 => 0x20,
            KeyCode::Kb4 => 0x21,
            KeyCode::Kb5 => 0x22,
            KeyCode::Kb6 => 0x23,
            KeyCode::Kb7 => 0x24,
            KeyCode::Kb8 => 0x25,
            KeyCode::Kb9 => 0x26,
            KeyCode::Kb0 => 0x27,
            KeyCode::Enter => 0x28,
            KeyCode::Escape => 0x29,
            KeyCode::Backspace => 0x2a,
            KeyCode::Tab => 0x2b,
            KeyCode::Space => 0x2c,
            KeyCode::Minus => 0x2d,
            KeyCode::Equal => 0x2e,
            KeyCode::LeftBracket => 0x2f,
            KeyCode::RightBracket => 0x30,
            KeyCode::Backslash => 0x31,
            KeyCode::Semicolon => 0x33,
            KeyCode::Apostrophe => 0x34,
            KeyCode::Grave => 0x35,
            KeyCode::Comma => 0x36,
            KeyCode::Period => 0x37,
            KeyCode::Slash => 0x38,
            KeyCode::CapsLock => 0x39,
            KeyCode::F1 => 0x3a,
            KeyCode::F2 => 0x3b,
            KeyCode::F3 => 0x3c,
            KeyCode::F4 => 0x3d,
            KeyCode::F5 => 0x3e,
            KeyCode::F6 => 0x3f,
            KeyCode::F7 => 0x40,
            KeyCode::F8 => 0x41,
            KeyCode::F9 => 0x42,
            KeyCode::F10 => 0x43,
            KeyCode::F11 => 0x44,
            KeyCode::F12 => 0x45,
            KeyCode::PrintScreen => 0x46,
            KeyCode::ScrollLock => 0x47,
            KeyCode::Pause => 0x48,
            KeyCode::Insert => 0x49,
            KeyCode::Home => 0x4a,
            KeyCode::PageUp => 0x4b,
            KeyCode::Delete => 0x4c,
            KeyCode::End => 0x4d,
            KeyCode::PageDown => 0x4e,
            KeyCode::Right => 0x4f,
            KeyCode::Left => 0x50,
            KeyCode::Down => 0x51,
            KeyCode::Up => 0x52,
            KeyCode::Application => 0x65,
            KeyCode::LeftControl => 0xe0,
            KeyCode::LeftShift => 0xe1,
            KeyCode::LeftAlt => 0xe2,
            KeyCode::LeftGui => 0xe3,
            KeyCode::RightControl => 0xe4,
            KeyCode::RightShift => 0xe5,
            KeyCode::RightAlt => 0xe6,
            KeyCode::RightGui => 0xe7,
        }
    }

    /// The empty identity: an unused matrix position.
    pub open spec fn is_empty_spec(self) -> bool {
        self.code_spec() == 0x00
    }

    /// Error sentinels dominate the whole report when asserted.
    pub open spec fn is_sentinel_spec(self) -> bool {
        0x01 <= self.code_spec() <= 0x03
    }

    /// Modifiers occupy the dedicated modifier byte, never a key slot.
    pub open spec fn is_modifier_spec(self) -> bool {
        0xE0 <= self.code_spec() <= 0xE7
    }

    /// A normal key: consumes one of the six key slots.
    pub open spec fn is_normal_spec(self) -> bool {
        !self.is_empty_spec() && !self.is_sentinel_spec() && !self.is_modifier_spec()
    }

    /// The single modifier bit of a modifier identity (0 otherwise).
    pub open spec fn modifier_mask_spec(self) -> u8 {
        match self {
            KeyCode::LeftControl => 0x01,
            KeyCode::LeftShift => 0x02,
            KeyCode::LeftAlt => 0x04,
            KeyCode::LeftGui => 0x08,
            KeyCode::RightControl => 0x10,
            KeyCode::RightShift => 0x20,
            KeyCode::RightAlt => 0x40,
            KeyCode::RightGui => 0x80,
            _ => 0x00,
        }
    }

    /// The byte this identity encodes to on the wire.
    pub fn code(self) -> (r: u8)
        ensures
            r == self.code_spec(),
    {
        match self {
            KeyCode::Empty => 0x00,
            KeyCode::ErrorRollOver => 0x01,
            KeyCode::PostFail => 0x02,
            KeyCode::ErrorUndefined => 0x03,
            KeyCode::A => 0x04,
            KeyCode::B => 0x05,
            KeyCode::C => 0x06,
            KeyCode::D => 0x07,
            KeyCode::E => 0x08,
            KeyCode::F => 0x09,
            KeyCode::G => 0x0a,
            KeyCode::H => 0x0b,
            KeyCode::I => 0x0c,
            KeyCode::J => 0x0d,
            KeyCode::K => 0x0e,
            KeyCode::L => 0x0f,
            KeyCode::M => 0x10,
            KeyCode::N => 0x11,
            KeyCode::O => 0x12,
            KeyCode::P => 0x13,
            KeyCode::Q => 0x14,
            KeyCode::R => 0x15,
            KeyCode::S => 0x16,
            KeyCode::T => 0x17,
            KeyCode::U => 0x18,
            KeyCode::V => 0x19,
            KeyCode::W => 0x1a,
            KeyCode::X => 0x1b,
            KeyCode::Y => 0x1c,
            KeyCode::Z => 0x1d,
            KeyCode::Kb1 => 0x1e,
            KeyCode::Kb2 => 0x1f,
            KeyCode::Kb3 => 0x20,
            KeyCode::Kb4 => 0x21,
            KeyCode::Kb5 => 0x22,
            KeyCode::Kb6 => 0x23,
            KeyCode::Kb7 => 0x24,
            KeyCode::Kb8 => 0x25,
            KeyCode::Kb9 => 0x26,
            KeyCode::Kb0 => 0x27,
            KeyCode::Enter => 0x28,
            KeyCode::Escape => 0x29,
            KeyCode::Backspace => 0x2a,
            KeyCode::Tab => 0x2b,
            KeyCode::Space => 0x2c,
            KeyCode::Minus => 0x2d,
            KeyCode::Equal => 0x2e,
            KeyCode::LeftBracket => 0x2f,
            KeyCode::RightBracket => 0x30,
            KeyCode::Backslash => 0x31,
            KeyCode::Semicolon => 0x33,
            KeyCode::Apostrophe => 0x34,
            KeyCode::Grave => 0x35,
            KeyCode::Comma => 0x36,
            KeyCode::Period => 0x37,
            KeyCode::Slash => 0x38,
            KeyCode::CapsLock => 0x39,
            KeyCode::F1 => 0x3a,
            KeyCode::F2 => 0x3b,
            KeyCode::F3 => 0x3c,
            KeyCode::F4 => 0x3d,
            KeyCode::F5 => 0x3e,
            KeyCode::F6 => 0x3f,
            KeyCode::F7 => 0x40,
            KeyCode::F8 => 0x41,
            KeyCode::F9 => 0x42,
            KeyCode::F10 => 0x43,
            KeyCode::F11 => 0x44,
            KeyCode::F12 => 0x45,
            KeyCode::PrintScreen => 0x46,
            KeyCode::ScrollLock => 0x47,
            KeyCode::Pause => 0x48,
            KeyCode::Insert => 0x49,
            KeyCode::Home => 0x4a,
            KeyCode::PageUp => 0x4b,
            KeyCode::Delete => 0x4c,
            KeyCode::End => 0x4d,
            KeyCode::PageDown => 0x4e,
            KeyCode::Right => 0x4f,
            KeyCode::Left => 0x50,
            KeyCode::Down => 0x51,
            KeyCode::Up => 0x52,
            KeyCode::Application => 0x65,
            KeyCode::LeftControl => 0xe0,
            KeyCode::LeftShift => 0xe1,
            KeyCode::LeftAlt => 0xe2,
            KeyCode::LeftGui => 0xe3,
            KeyCode::RightControl => 0xe4,
            KeyCode::RightShift => 0xe5,
            KeyCode::RightAlt => 0xe6,
            KeyCode::RightGui => 0xe7,
        }
    }

    /// Whether this identity is a modifier.
    pub fn is_modifier(self) -> (r: bool)
        ensures
            r == self.is_modifier_spec(),
    {
        self.modifier_bitmask().is_some()
    }

    /// The modifier bit of this identity, if it is a modifier.
    pub fn modifier_bitmask(self) -> (r: Option<u8>)
        ensures
            r == (if self.is_modifier_spec() {
                Some(self.modifier_mask_spec())
            } else {
                None::<u8>
            }),
    {
        match self {
            KeyCode::LeftControl => Some(0x01u8),
            KeyCode::LeftShift => Some(0x02u8),
            KeyCode::LeftAlt => Some(0x04u8),
            KeyCode::LeftGui => Some(0x08u8),
            KeyCode::RightControl => Some(0x10u8),
            KeyCode::RightShift => Some(0x20u8),
            KeyCode::RightAlt => Some(0x40u8),
            KeyCode::RightGui => Some(0x80u8),
            _ => None,
        }
    }
}

} // verus!
