//! The closed flag vocabularies of the HD44780 instruction set and of the
//! I2C bridge's control lines.
//!
//! Each enum is a closed set of tags; `spec_value` gives the protocol byte
//! fragment a tag stands for, and `value` is its executable twin. Keeping the
//! tag-to-byte mapping here, in one place per flag group, keeps numeric
//! literals out of the call sites.

use vstd::prelude::*;

verus! {

/// The eight HD44780 instruction opcodes. Each command byte is the opcode's
/// base value bit-OR'd with operation-specific data bits.
#[derive(Copy, Clone, Debug, PartialEq, Eq)]
pub enum Command {
    ClearDisplay,
    ReturnHome,
    EntryModeSet,
    DisplayControl,
    CursorShift,
    FunctionSet,
    SetCGRamAddr,
    SetDDRamAddr,
}

impl Command {
    /// The base value of the opcode.
    pub open spec fn spec_value(self) -> u8 {
        match self {
            Command::ClearDisplay => 0x01,
            Command::ReturnHome => 0x02,
            Command::EntryModeSet => 0x04,
            Command::DisplayControl => 0x08,
            Command::CursorShift => 0x10,
            Command::FunctionSet => 0x20,
            Command::SetCGRamAddr => 0x40,
            Command::SetDDRamAddr => 0x80,
        }
    }

    pub fn value(self) -> (r: u8)
        ensures
            r == self.spec_value(),
    {
        match self {
            Command::ClearDisplay => 0x01,
            Command::ReturnHome => 0x02,
            Command::EntryModeSet => 0x04,
            Command::DisplayControl => 0x08,
            Command::CursorShift => 0x10,
            Command::FunctionSet => 0x20,
            Command::SetCGRamAddr => 0x40,
            Command::SetDDRamAddr => 0x80,
        }
    }
}

/// Direction in which the cursor moves after a character is written.
#[derive(Copy, Clone, Debug, PartialEq, Eq)]
pub enum EntryMode {
    Right,
    Left,
}

impl EntryMode {
    pub open spec fn spec_value(self) -> u8 {
        match self {
            EntryMode::Right => 0x00,
            EntryMode::Left => 0x02,
        }
    }

    pub fn value(self) -> (r: u8)
        ensures
            r == self.spec_value(),
    {
        match self {
            EntryMode::Right => 0x00,
            EntryMode::Left => 0x02,
        }
    }
}

/// Whether the whole display shifts on each write.
#[derive(Copy, Clone, Debug, PartialEq, Eq)]
pub enum EntryShift {
    Increment,
    Decrement,
}

impl EntryShift {
    pub open spec fn spec_value(self) -> u8 {
        match self {
            EntryShift::Increment => 0x01,
            EntryShift::Decrement => 0x00,
        }
    }

    pub fn value(self) -> (r: u8)
        ensures
            r == self.spec_value(),
    {
        match self {
            EntryShift::Increment => 0x01,
            EntryShift::Decrement => 0x00,
        }
    }
}

/// Display power flag of the display-control command.
#[derive(Copy, Clone, Debug, PartialEq, Eq)]
pub enum DisplayStatus {
    Off,
    On,
}

impl DisplayStatus {
    pub open spec fn spec_value(self) -> u8 {
        match self {
            DisplayStatus::Off => 0x00,
            DisplayStatus::On => 0x04,
        }
    }

    pub fn value(self) -> (r: u8)
        ensures
            r == self.spec_value(),
    {
        match self {
            DisplayStatus::Off => 0x00,
            DisplayStatus::On => 0x04,
        }
    }
}

/// Cursor visibility flag of the display-control command.
#[derive(Copy, Clone, Debug, PartialEq, Eq)]
pub enum CursorState {
    Off,
    On,
}

impl CursorState {
    pub open spec fn spec_value(self) -> u8 {
        match self {
            CursorState::Off => 0x00,
            CursorState::On => 0x02,
        }
    }

    pub fn value(self) -> (r: u8)
        ensures
            r == self.spec_value(),
    {
        match self {
            CursorState::Off => 0x00,
            CursorState::On => 0x02,
        }
    }
}

/// Cursor blink flag of the display-control command.
#[derive(Copy, Clone, Debug, PartialEq, Eq)]
pub enum BlinkState {
    Off,
    On,
}

impl BlinkState {
    pub open spec fn spec_value(self) -> u8 {
        match self {
            BlinkState::Off => 0x00,
            BlinkState::On => 0x01,
        }
    }

    pub fn value(self) -> (r: u8)
        ensures
            r == self.spec_value(),
    {
        match self {
            BlinkState::Off => 0x00,
            BlinkState::On => 0x01,
        }
    }
}

/// What a cursor/display-shift command moves.
#[derive(Copy, Clone, Debug, PartialEq, Eq)]
pub enum MoveType {
    Cursor,
    Display,
}

impl MoveType {
    pub open spec fn spec_value(self) -> u8 {
        match self {
            MoveType::Cursor => 0x00,
            MoveType::Display => 0x08,
        }
    }

    pub fn value(self) -> (r: u8)
        ensures
            r == self.spec_value(),
    {
        match self {
            MoveType::Cursor => 0x00,
            MoveType::Display => 0x08,
        }
    }
}

/// Direction of a cursor/display-shift command.
#[derive(Copy, Clone, Debug, PartialEq, Eq)]
pub enum MoveDirection {
    Left,
    Right,
}

impl MoveDirection {
    pub open spec fn spec_value(self) -> u8 {
        match self {
            MoveDirection::Left => 0x00,
            MoveDirection::Right => 0x04,
        }
    }

    pub fn value(self) -> (r: u8)
        ensures
            r == self.spec_value(),
    {
        match self {
            MoveDirection::Left => 0x00,
            MoveDirection::Right => 0x04,
        }
    }
}

/// The backlight line of the bridge chip. It shares the output byte with the
/// command bits, so every transmitted byte re-asserts it.
#[derive(Copy, Clone, Debug, PartialEq, Eq)]
pub enum Backlight {
    Off,
    On,
}

impl Backlight {
    pub open spec fn spec_value(self) -> u8 {
        match self {
            Backlight::Off => 0x00,
            Backlight::On => 0x08,
        }
    }

    pub fn value(self) -> (r: u8)
        ensures
            r == self.spec_value(),
    {
        match self {
            Backlight::Off => 0x00,
            Backlight::On => 0x08,
        }
    }
}

/// The control lines overlaid on every transmitted byte: enable strobe,
/// read/write select, and register select (command vs. character data).
#[derive(Copy, Clone, Debug, PartialEq, Eq)]
pub enum WriteMode {
    Enable,
    ReadWrite,
    RegisterSelect,
    Normal,
}

impl WriteMode {
    pub open spec fn spec_value(self) -> u8 {
        match self {
            WriteMode::Enable => 0x04,
            WriteMode::ReadWrite => 0x02,
            WriteMode::RegisterSelect => 0x01,
            WriteMode::Normal => 0x00,
        }
    }

    pub fn value(self) -> (r: u8)
        ensures
            r == self.spec_value(),
    {
        match self {
            WriteMode::Enable => 0x04,
            WriteMode::ReadWrite => 0x02,
            WriteMode::RegisterSelect => 0x01,
            WriteMode::Normal => 0x00,
        }
    }
}

/// Bus word width: each logical byte goes out as one transmission (8-bit) or
/// as two nibble transmissions (4-bit).
#[derive(Copy, Clone, Debug, PartialEq, Eq)]
pub enum BitMode {
    B4,
    B8,
}

impl BitMode {
    pub open spec fn spec_value(self) -> u8 {
        match self {
            BitMode::B4 => 0x00,
            BitMode::B8 => 0x10,
        }
    }

    pub fn value(self) -> (r: u8)
        ensures
            r == self.spec_value(),
    {
        match self {
            BitMode::B4 => 0x00,
            BitMode::B8 => 0x10,
        }
    }
}

/// Number of physical line drivers the controller runs.
#[derive(Copy, Clone, Debug, PartialEq, Eq)]
pub enum LineCount {
    L1,
    L2,
}

impl LineCount {
    pub open spec fn spec_value(self) -> u8 {
        match self {
            LineCount::L1 => 0x00,
            LineCount::L2 => 0x08,
        }
    }

    pub fn value(self) -> (r: u8)
        ensures
            r == self.spec_value(),
    {
        match self {
            LineCount::L1 => 0x00,
            LineCount::L2 => 0x08,
        }
    }
}

/// Character matrix size.
#[derive(Copy, Clone, Debug, PartialEq, Eq)]
pub enum MatrixSize {
    M5x8,
    M5x10,
}

impl MatrixSize {
    pub open spec fn spec_value(self) -> u8 {
        match self {
            MatrixSize::M5x8 => 0x00,
            MatrixSize::M5x10 => 0x04,
        }
    }

    pub fn value(self) -> (r: u8)
        ensures
            r == self.spec_value(),
    {
        match self {
            MatrixSize::M5x8 => 0x00,
            MatrixSize::M5x10 => 0x04,
        }
    }
}

} // verus!
