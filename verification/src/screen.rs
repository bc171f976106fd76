//! The display controller: configuration, display state, and the
//! encode-and-transmit pipeline from high-level operations down to single bus
//! writes.

use vstd::prelude::*;

use crate::bus::Bus;
use crate::bus::BusError;
use crate::flags::Backlight;
use crate::flags::BitMode;
use crate::flags::BlinkState;
use crate::flags::CursorState;
use crate::flags::DisplayStatus;
use crate::flags::LineCount;
use crate::flags::MatrixSize;
use crate::flags::WriteMode;
use crate::flags::Command;
use crate::flags::EntryMode;
use crate::flags::EntryShift;
use crate::protocol::backlight_flag;
use crate::protocol::byte_of_char;
use crate::protocol::command_plan;
use crate::protocol::ddram_address;
use crate::protocol::display_control_data;
use crate::protocol::display_plan;
use crate::protocol::emits_prefix;
use crate::protocol::function_set_data;
use crate::protocol::high_frame;
use crate::protocol::init_plan;
use crate::protocol::lemma_prefix_none;
use crate::protocol::lemma_prefix_widen;
use crate::protocol::lemma_step_err;
use crate::protocol::lemma_step_ok;
use crate::protocol::lemma_text_plan_concat;
use crate::protocol::lemma_text_plan_one;
use crate::protocol::lemma_text_plan_split;
use crate::protocol::low_frame;
use crate::protocol::strobe_seq;
use crate::protocol::text_plan;
use crate::protocol::unit_seq;
use crate::protocol::with_backlight;
use crate::protocol::write_plan;
use vstd::string::StrSliceExecFns;

verus! {

/// Minimum width of the enable pulse the controller chip latches on.
pub const ENABLE_PULSE_NS: u64 = 50_000;

/// Minimum settling time after a transmission.
pub const COMMAND_SETTLE_NS: u64 = 10_000;

/// Settling time after the cold-start sequence.
pub const SETUP_DELAY_NS: u64 = 200_000_000;

/// Immutable parameters of a display, fixed at construction: bus word width,
/// line-driver count and character matrix size. Together they form the data
/// bits of the function-set command.
#[derive(Copy, Clone, Debug, PartialEq, Eq)]
pub struct ScreenConfig {
    pub bit_mode: BitMode,
    pub line_count: LineCount,
    pub matrix_size: MatrixSize,
}

impl ScreenConfig {
    /// The configuration most bridge boards ship with: 4-bit words, two
    /// lines, 5 by 8 dots.
    pub open spec fn spec_default() -> ScreenConfig {
        ScreenConfig {
            bit_mode: BitMode::B4,
            line_count: LineCount::L2,
            matrix_size: MatrixSize::M5x8,
        }
    }

    pub fn new(bit_mode: BitMode, line_count: LineCount, matrix_size: MatrixSize) -> (c:
        ScreenConfig)
        ensures
            c == (ScreenConfig { bit_mode, line_count, matrix_size }),
    {
        ScreenConfig { bit_mode, line_count, matrix_size }
    }

    pub fn default() -> (c: ScreenConfig)
        ensures
            c == ScreenConfig::spec_default(),
    {
        ScreenConfig::new(BitMode::B4, LineCount::L2, MatrixSize::M5x8)
    }
}

/// The mutable display flags. The three are always transmitted together as
/// one display-control byte, so the hardware register is never partially
/// updated.
#[derive(Copy, Clone, Debug, PartialEq, Eq)]
pub struct DisplayState {
    pub status: DisplayStatus,
    pub cursor: CursorState,
    pub blink: BlinkState,
}

impl DisplayState {
    /// The state a fresh controller starts in: everything on.
    pub open spec fn spec_default() -> DisplayState {
        DisplayState { status: DisplayStatus::On, cursor: CursorState::On, blink: BlinkState::On }
    }

    /// The state with only the power flag changed.
    pub open spec fn with_status(self, on: bool) -> DisplayState {
        DisplayState {
            status: if on {
                DisplayStatus::On
            } else {
                DisplayStatus::Off
            },
            ..self
        }
    }

    /// The state with only the cursor flag changed.
    pub open spec fn with_cursor(self, on: bool) -> DisplayState {
        DisplayState {
            cursor: if on {
                CursorState::On
            } else {
                CursorState::Off
            },
            ..self
        }
    }

    /// The state with only the blink flag changed.
    pub open spec fn with_blink(self, on: bool) -> DisplayState {
        DisplayState {
            blink: if on {
                BlinkState::On
            } else {
                BlinkState::Off
            },
            ..self
        }
    }

    fn new(status: DisplayStatus, cursor: CursorState, blink: BlinkState) -> (s: DisplayState)
        ensures
            s == (DisplayState { status, cursor, blink }),
    {
        DisplayState { status, cursor, blink }
    }

    fn default() -> (s: DisplayState)
        ensures
            s == DisplayState::spec_default(),
    {
        DisplayState::new(DisplayStatus::On, CursorState::On, BlinkState::On)
    }
}

/// What a controller looks like in contracts: its configuration, its display
/// flags, its backlight line, and the bytes its bus has accepted so far.
pub struct ScreenView {
    pub config: ScreenConfig,
    pub state: DisplayState,
    pub backlight: bool,
    pub sent: Seq<u8>,
}

impl ScreenView {
    /// The configuration, flags and backlight line are untouched.
    pub open spec fn same_settings(self, other: ScreenView) -> bool {
        &&& self.config == other.config
        &&& self.state == other.state
        &&& self.backlight == other.backlight
    }

    /// Whether bytes are framed as two nibble transmissions.
    pub open spec fn four_bit(self) -> bool {
        self.config.bit_mode is B4
    }
}

/// The display controller. It exclusively owns the bus handle, the immutable
/// configuration, and the mutable display flags; every operation encodes a
/// command and transmits it through the bus.
pub struct Screen<B: Bus> {
    bus: B,
    config: ScreenConfig,
    state: DisplayState,
    backlight: bool,
}

impl<B: Bus> View for Screen<B> {
    type V = ScreenView;

    closed spec fn view(&self) -> ScreenView {
        ScreenView {
            config: self.config,
            state: self.state,
            backlight: self.backlight,
            sent: self.bus.sent(),
        }
    }
}

impl<B: Bus> Screen<B> {
    /// A controller over an already-open bus handle, with everything on.
    pub fn new(config: ScreenConfig, bus: B) -> (s: Screen<B>)
        ensures
            s@.config == config,
            s@.state == DisplayState::spec_default(),
            s@.backlight == true,
            s@.sent == bus.sent(),
    {
        Screen { bus, config, state: DisplayState::default(), backlight: true }
    }

    /// The bus handle, for inspection.
    pub fn bus(&self) -> (r: &B)
        ensures
            r.sent() == self@.sent,
    {
        &self.bus
    }

    /// Write one raw byte to the bus and hold for the settling delay. The
    /// byte goes out exactly as given: no backlight overlay, no strobe.
    pub fn write_cmd(&mut self, command: u8) -> (r: Result<(), BusError>)
        ensures
            final(self)@.same_settings(old(self)@),
            r is Ok ==> final(self)@.sent == old(self)@.sent.push(command),
            r is Err ==> final(self)@.sent == old(self)@.sent,
    {
        match self.bus.write_byte(command) {
            Ok(()) => {
                self.bus.pause(COMMAND_SETTLE_NS);
                Ok(())
            },
            Err(e) => Err(e),
        }
    }

    /// Write one byte with the current backlight line re-asserted on top of
    /// it, as the bridge chip requires of every transmitted byte.
    pub fn write_screen(&mut self, command: u8) -> (r: Result<(), BusError>)
        ensures
            final(self)@.same_settings(old(self)@),
            r is Ok ==> final(self)@.sent == old(self)@.sent.push(
                with_backlight(command, old(self)@.backlight),
            ),
            r is Err ==> final(self)@.sent == old(self)@.sent,
    {
        let value = if self.backlight {
            command | Backlight::On.value()
        } else {
            command
        };
        self.write_cmd(value)
    }

    /// Latch a stable value into the controller: raise the enable bit, hold
    /// for the minimum pulse width, clear it (the falling edge latches), and
    /// hold for the processing delay. A failure of the first write aborts;
    /// the enable-clear write is then never attempted.
    pub fn strobe(&mut self, data: u8) -> (r: Result<(), BusError>)
        ensures
            final(self)@.same_settings(old(self)@),
            r is Ok ==> final(self)@.sent == old(self)@.sent + strobe_seq(
                data,
                old(self)@.backlight,
            ),
            r is Err ==> emits_prefix(
                old(self)@.sent,
                final(self)@.sent,
                strobe_seq(data, old(self)@.backlight),
            ),
    {
        let ghost s0 = self@.sent;
        let ghost bl = self@.backlight;
        let ghost plan = strobe_seq(data, bl);
        match self.write_screen(data | WriteMode::Enable.value()) {
            Ok(()) => {},
            Err(e) => {
                proof {
                    lemma_prefix_none(s0, plan);
                }
                return Err(e);
            },
        }
        self.bus.pause(ENABLE_PULSE_NS);
        match self.write_screen(data & !(WriteMode::Enable.value())) {
            Ok(()) => {},
            Err(e) => {
                proof {
                    assert(self@.sent == s0 + plan.take(1)) by {
                        assert(s0.push(with_backlight(data | 0x04, bl)) =~= s0 + plan.take(1));
                    }
                }
                return Err(e);
            },
        }
        self.bus.pause(COMMAND_SETTLE_NS);
        proof {
            assert(s0.push(with_backlight(data | 0x04, bl)).push(
                with_backlight(data & !0x04, bl),
            ) =~= s0 + plan);
        }
        Ok(())
    }

    /// Transmit one unit: put the value on the bus, then strobe it in.
    pub fn write_four_bytes(&mut self, data: u8) -> (r: Result<(), BusError>)
        ensures
            final(self)@.same_settings(old(self)@),
            r is Ok ==> final(self)@.sent == old(self)@.sent + unit_seq(
                data,
                old(self)@.backlight,
            ),
            r is Err ==> emits_prefix(
                old(self)@.sent,
                final(self)@.sent,
                unit_seq(data, old(self)@.backlight),
            ),
    {
        let ghost s0 = self@.sent;
        let ghost bl = self@.backlight;
        let ghost plan = unit_seq(data, bl);
        match self.write_screen(data) {
            Ok(()) => {},
            Err(e) => {
                proof {
                    lemma_prefix_none(s0, plan);
                }
                return Err(e);
            },
        }
        proof {
            assert(s0.push(with_backlight(data, bl)) =~= s0 + seq![with_backlight(data, bl)]);
        }
        let ghost mid = self@.sent;
        match self.strobe(data) {
            Ok(()) => {
                proof {
                    lemma_step_ok(
                        s0,
                        self@.sent,
                        seq![with_backlight(data, bl)],
                        strobe_seq(data, bl),
                    );
                }
                Ok(())
            },
            Err(e) => {
                proof {
                    lemma_step_err(
                        s0,
                        mid,
                        self@.sent,
                        seq![with_backlight(data, bl)],
                        strobe_seq(data, bl),
                        Seq::<u8>::empty(),
                    );
                    assert(seq![with_backlight(data, bl)] + strobe_seq(data, bl)
                        + Seq::<u8>::empty() =~= plan);
                }
                Err(e)
            },
        }
    }

    /// Transmit one logical byte under the given mode lines. In 4-bit width
    /// the byte goes out as two strobed nibble units, high nibble first (the
    /// order the controller expects); in 8-bit width as one plain write.
    pub fn write(&mut self, command: u8, mode: WriteMode) -> (r: Result<(), BusError>)
        ensures
            final(self)@.same_settings(old(self)@),
            r is Ok ==> final(self)@.sent == old(self)@.sent + write_plan(
                command,
                mode.spec_value(),
                old(self)@.four_bit(),
                old(self)@.backlight,
            ),
            r is Err ==> emits_prefix(
                old(self)@.sent,
                final(self)@.sent,
                write_plan(command, mode.spec_value(), old(self)@.four_bit(), old(self)@.backlight),
            ),
    {
        let ghost s0 = self@.sent;
        let ghost bl = self@.backlight;
        let ghost plan = write_plan(command, mode.spec_value(), self@.four_bit(), bl);
        match self.config.bit_mode {
            BitMode::B4 => {
                let ghost hi_plan = unit_seq(high_frame(command, mode.spec_value()), bl);
                let ghost lo_plan = unit_seq(low_frame(command, mode.spec_value()), bl);
                let hi = mode.value() | (command & 0xf0);
                match self.write_four_bytes(hi) {
                    Ok(()) => {},
                    Err(e) => {
                        proof {
                            lemma_prefix_widen(s0, self@.sent, hi_plan, lo_plan);
                        }
                        return Err(e);
                    },
                }
                let ghost mid = self@.sent;
                let lo = mode.value() | ((command << 4) & 0xf0);
                match self.write_four_bytes(lo) {
                    Ok(()) => {
                        proof {
                            lemma_step_ok(s0, self@.sent, hi_plan, lo_plan);
                        }
                        Ok(())
                    },
                    Err(e) => {
                        proof {
                            lemma_step_err(
                                s0,
                                mid,
                                self@.sent,
                                hi_plan,
                                lo_plan,
                                Seq::<u8>::empty(),
                            );
                            assert(hi_plan + lo_plan + Seq::<u8>::empty() =~= plan);
                        }
                        Err(e)
                    },
                }
            },
            BitMode::B8 => {
                match self.write_screen(mode.value() | command) {
                    Ok(()) => {
                        proof {
                            assert(s0.push(with_backlight(mode.spec_value() | command, bl)) =~= s0
                                + plan);
                        }
                        Ok(())
                    },
                    Err(e) => {
                        proof {
                            lemma_prefix_none(s0, plan);
                        }
                        Err(e)
                    },
                }
            },
        }
    }

    /// Transmit a command: its opcode OR'd with the data bits, with the
    /// register-select line clear.
    pub fn command(&mut self, command: Command, data: u8) -> (r: Result<(), BusError>)
        ensures
            final(self)@.same_settings(old(self)@),
            r is Ok ==> final(self)@.sent == old(self)@.sent + command_plan(
                command,
                data,
                old(self)@.config,
                old(self)@.backlight,
            ),
            r is Err ==> emits_prefix(
                old(self)@.sent,
                final(self)@.sent,
                command_plan(command, data, old(self)@.config, old(self)@.backlight),
            ),
    {
        self.write(command.value() | data, WriteMode::Normal)
    }

    /// Transmit one character as a data byte: the register-select line set.
    pub fn write_char(&mut self, ch: u8) -> (r: Result<(), BusError>)
        ensures
            final(self)@.same_settings(old(self)@),
            r is Ok ==> final(self)@.sent == old(self)@.sent + write_plan(
                ch,
                WriteMode::RegisterSelect.spec_value(),
                old(self)@.four_bit(),
                old(self)@.backlight,
            ),
            r is Err ==> emits_prefix(
                old(self)@.sent,
                final(self)@.sent,
                write_plan(
                    ch,
                    WriteMode::RegisterSelect.spec_value(),
                    old(self)@.four_bit(),
                    old(self)@.backlight,
                ),
            ),
    {
        self.write(ch, WriteMode::RegisterSelect)
    }

    /// Issue the function-set command built from the configuration: the
    /// bit-OR of the word width, line count and matrix size raw values.
    pub fn install_function_set(&mut self) -> (r: Result<(), BusError>)
        ensures
            final(self)@.same_settings(old(self)@),
            r is Ok ==> final(self)@.sent == old(self)@.sent + command_plan(
                Command::FunctionSet,
                function_set_data(old(self)@.config),
                old(self)@.config,
                old(self)@.backlight,
            ),
            r is Err ==> emits_prefix(
                old(self)@.sent,
                final(self)@.sent,
                command_plan(
                    Command::FunctionSet,
                    function_set_data(old(self)@.config),
                    old(self)@.config,
                    old(self)@.backlight,
                ),
            ),
    {
        let flags = self.config.bit_mode.value() | self.config.line_count.value()
            | self.config.matrix_size.value();
        self.command(Command::FunctionSet, flags)
    }

    /// Issue the display-control command carrying all three display flags,
    /// so the hardware register is never partially updated.
    pub fn apply_display_state(&mut self) -> (r: Result<(), BusError>)
        ensures
            final(self)@.same_settings(old(self)@),
            r is Ok ==> final(self)@.sent == old(self)@.sent + command_plan(
                Command::DisplayControl,
                display_control_data(old(self)@.state),
                old(self)@.config,
                old(self)@.backlight,
            ),
            r is Err ==> emits_prefix(
                old(self)@.sent,
                final(self)@.sent,
                command_plan(
                    Command::DisplayControl,
                    display_control_data(old(self)@.state),
                    old(self)@.config,
                    old(self)@.backlight,
                ),
            ),
    {
        let flags = self.state.status.value() | self.state.cursor.value()
            | self.state.blink.value();
        self.command(Command::DisplayControl, flags)
    }

    /// Clear the display; the hardware returns to a blank, home-cursor state.
    pub fn clear(&mut self) -> (r: Result<(), BusError>)
        ensures
            final(self)@.same_settings(old(self)@),
            r is Ok ==> final(self)@.sent == old(self)@.sent + command_plan(
                Command::ClearDisplay,
                0x00,
                old(self)@.config,
                old(self)@.backlight,
            ),
            r is Err ==> emits_prefix(
                old(self)@.sent,
                final(self)@.sent,
                command_plan(Command::ClearDisplay, 0x00, old(self)@.config, old(self)@.backlight),
            ),
    {
        self.command(Command::ClearDisplay, 0)
    }

    /// Issue entry-mode-set with the given direction; the shift-on-write
    /// behaviour stays at its fixed default (off).
    pub fn set_entry_mode(&mut self, entry_mode: EntryMode) -> (r: Result<(), BusError>)
        ensures
            final(self)@.same_settings(old(self)@),
            r is Ok ==> final(self)@.sent == old(self)@.sent + command_plan(
                Command::EntryModeSet,
                entry_mode.spec_value(),
                old(self)@.config,
                old(self)@.backlight,
            ),
            r is Err ==> emits_prefix(
                old(self)@.sent,
                final(self)@.sent,
                command_plan(
                    Command::EntryModeSet,
                    entry_mode.spec_value(),
                    old(self)@.config,
                    old(self)@.backlight,
                ),
            ),
    {
        self.command(Command::EntryModeSet, entry_mode.value())
    }

    /// Issue entry-mode-set with both the direction and the shift-on-write
    /// flag chosen by the caller.
    pub fn set_entry_mode_shift(&mut self, entry_mode: EntryMode, entry_shift: EntryShift) -> (r:
        Result<(), BusError>)
        ensures
            final(self)@.same_settings(old(self)@),
            r is Ok ==> final(self)@.sent == old(self)@.sent + command_plan(
                Command::EntryModeSet,
                entry_mode.spec_value() | entry_shift.spec_value(),
                old(self)@.config,
                old(self)@.backlight,
            ),
            r is Err ==> emits_prefix(
                old(self)@.sent,
                final(self)@.sent,
                command_plan(
                    Command::EntryModeSet,
                    entry_mode.spec_value() | entry_shift.spec_value(),
                    old(self)@.config,
                    old(self)@.backlight,
                ),
            ),
    {
        self.command(Command::EntryModeSet, entry_mode.value() | entry_shift.value())
    }

    /// Change the cursor flag alone, then re-send all three display flags.
    pub fn set_cursor(&mut self, activated: bool) -> (r: Result<(), BusError>)
        ensures
            final(self)@.config == old(self)@.config,
            final(self)@.backlight == old(self)@.backlight,
            final(self)@.state == old(self)@.state.with_cursor(activated),
            r is Ok ==> final(self)@.sent == old(self)@.sent + command_plan(
                Command::DisplayControl,
                display_control_data(old(self)@.state.with_cursor(activated)),
                old(self)@.config,
                old(self)@.backlight,
            ),
            r is Err ==> emits_prefix(
                old(self)@.sent,
                final(self)@.sent,
                command_plan(
                    Command::DisplayControl,
                    display_control_data(old(self)@.state.with_cursor(activated)),
                    old(self)@.config,
                    old(self)@.backlight,
                ),
            ),
    {
        self.state.cursor = if activated {
            CursorState::On
        } else {
            CursorState::Off
        };
        self.apply_display_state()
    }

    /// Change the power flag alone, then re-send all three display flags.
    pub fn set_status(&mut self, activated: bool) -> (r: Result<(), BusError>)
        ensures
            final(self)@.config == old(self)@.config,
            final(self)@.backlight == old(self)@.backlight,
            final(self)@.state == old(self)@.state.with_status(activated),
            r is Ok ==> final(self)@.sent == old(self)@.sent + command_plan(
                Command::DisplayControl,
                display_control_data(old(self)@.state.with_status(activated)),
                old(self)@.config,
                old(self)@.backlight,
            ),
            r is Err ==> emits_prefix(
                old(self)@.sent,
                final(self)@.sent,
                command_plan(
                    Command::DisplayControl,
                    display_control_data(old(self)@.state.with_status(activated)),
                    old(self)@.config,
                    old(self)@.backlight,
                ),
            ),
    {
        self.state.status = if activated {
            DisplayStatus::On
        } else {
            DisplayStatus::Off
        };
        self.apply_display_state()
    }

    /// Change the blink flag alone, then re-send all three display flags.
    pub fn set_blink(&mut self, activated: bool) -> (r: Result<(), BusError>)
        ensures
            final(self)@.config == old(self)@.config,
            final(self)@.backlight == old(self)@.backlight,
            final(self)@.state == old(self)@.state.with_blink(activated),
            r is Ok ==> final(self)@.sent == old(self)@.sent + command_plan(
                Command::DisplayControl,
                display_control_data(old(self)@.state.with_blink(activated)),
                old(self)@.config,
                old(self)@.backlight,
            ),
            r is Err ==> emits_prefix(
                old(self)@.sent,
                final(self)@.sent,
                command_plan(
                    Command::DisplayControl,
                    display_control_data(old(self)@.state.with_blink(activated)),
                    old(self)@.config,
                    old(self)@.backlight,
                ),
            ),
    {
        self.state.blink = if activated {
            BlinkState::On
        } else {
            BlinkState::Off
        };
        self.apply_display_state()
    }

    /// Toggle the backlight line alone. This is the one operation that writes
    /// past the command pipeline: the backlight is a bridge-chip signal, not
    /// a controller instruction, so the byte carries nothing else.
    pub fn set_backlight(&mut self, backlight: bool) -> (r: Result<(), BusError>)
        ensures
            final(self)@.config == old(self)@.config,
            final(self)@.state == old(self)@.state,
            final(self)@.backlight == backlight,
            r is Ok ==> final(self)@.sent == old(self)@.sent.push(backlight_flag(backlight)),
            r is Err ==> final(self)@.sent == old(self)@.sent,
    {
        self.backlight = backlight;
        if backlight {
            self.write_cmd(Backlight::On.value())
        } else {
            self.write_cmd(Backlight::Off.value())
        }
    }

    /// Place text at a row and column: issue set-DDRAM-address for the
    /// position, then each character in source order as a data byte.
    ///
    /// Rows count from 1; an unrecognized row falls back to row 1's offsets.
    /// No bounds check against the row's physical width is made: writing past
    /// it is the caller's concern. The one demand is that the computed DDRAM
    /// address fits the controller's 7-bit address space.
    pub fn display(&mut self, s: &str, line: u8, col: u8) -> (r: Result<(), BusError>)
        requires
            ddram_address(line, col) <= 0x7f,
        ensures
            final(self)@.same_settings(old(self)@),
            r is Ok ==> final(self)@.sent == old(self)@.sent + display_plan(
                s@,
                line,
                col,
                old(self)@.four_bit(),
                old(self)@.backlight,
            ),
            r is Err ==> emits_prefix(
                old(self)@.sent,
                final(self)@.sent,
                display_plan(s@, line, col, old(self)@.four_bit(), old(self)@.backlight),
            ),
    {
        let ghost s0 = self@.sent;
        let ghost bl = self@.backlight;
        let ghost fb = self@.four_bit();
        let ghost cfg0 = self@.config;
        let ghost st0 = self@.state;
        let ghost plan = display_plan(s@, line, col, fb, bl);
        let pos: u8 = match line {
            1 => col,
            2 => 0x40 + col,
            3 => 0x14 + col,
            4 => 0x54 + col,
            _ => col,
        };
        let addr = Command::SetDDRamAddr.value() + pos;
        let ghost addr_plan = write_plan(
            (Command::SetDDRamAddr.spec_value() + ddram_address(line, col)) as u8,
            WriteMode::Normal.spec_value(),
            fb,
            bl,
        );
        match self.write(addr, WriteMode::Normal) {
            Ok(()) => {},
            Err(e) => {
                proof {
                    lemma_prefix_widen(s0, self@.sent, addr_plan, text_plan(s@, fb, bl));
                }
                return Err(e);
            },
        }
        let ghost mid = self@.sent;
        let n = s.unicode_len();
        let mut i: usize = 0;
        while i < n
            invariant
                i <= n,
                n == s@.len(),
                s0 == old(self)@.sent,
                cfg0 == old(self)@.config,
                st0 == old(self)@.state,
                bl == old(self)@.backlight,
                fb == old(self)@.four_bit(),
                plan == display_plan(s@, line, col, fb, bl),
                mid == s0 + addr_plan,
                self@.sent == mid + text_plan(s@.take(i as int), fb, bl),
                self@.config == cfg0,
                self@.state == st0,
                self@.backlight == bl,
                fb == (cfg0.bit_mode is B4),
                plan == addr_plan + text_plan(s@, fb, bl),
            decreases n - i,
        {
            proof {
                assert(s@.take(i as int).len() == i);
            }
            let c = s.get_char(i);
            let code = c as u32;
            let b: u8 = #[verifier::truncate] (code as u8);
            let ghost step_plan = write_plan(
                byte_of_char(c),
                WriteMode::RegisterSelect.spec_value(),
                fb,
                bl,
            );
            let ghost cur = self@.sent;
            match self.write_char(b) {
                Ok(()) => {
                    proof {
                        assert(s@.take(i as int + 1) =~= s@.take(i as int) + seq![s@[i as int]]);
                        lemma_text_plan_concat(s@.take(i as int), seq![s@[i as int]], fb, bl);
                        lemma_text_plan_one(s@[i as int], fb, bl);
                        lemma_step_ok(
                            mid,
                            self@.sent,
                            text_plan(s@.take(i as int), fb, bl),
                            step_plan,
                        );
                    }
                },
                Err(e) => {
                    proof {
                        let done = addr_plan + text_plan(s@.take(i as int), fb, bl);
                        assert((s0 + addr_plan) + text_plan(s@.take(i as int), fb, bl) =~= s0
                            + done);
                        lemma_text_plan_split(s@, i as int, fb, bl);
                        lemma_step_err(
                            s0,
                            cur,
                            self@.sent,
                            done,
                            step_plan,
                            text_plan(s@.skip(i as int + 1), fb, bl),
                        );
                        assert(done + step_plan + text_plan(s@.skip(i as int + 1), fb, bl) =~= plan);
                    }
                    return Err(e);
                },
            }
            i += 1;
        }
        proof {
            assert(s@.take(n as int) =~= s@);
            lemma_step_ok(s0, self@.sent, addr_plan, text_plan(s@, fb, bl));
        }
        Ok(())
    }

    /// The documented cold-start handshake. The controller powers up in an
    /// indeterminate mode, so the raw nibble `0x3` is latched three times and
    /// `0x2` once (single nibble units, bypassing byte framing) before the
    /// function-set, display-control, clear and entry-mode commands go out;
    /// then the hardware is given its settling time. Any bus failure aborts
    /// the remaining steps, and the caller must reinitialize from scratch.
    pub fn init(&mut self) -> (r: Result<(), BusError>)
        ensures
            final(self)@.same_settings(old(self)@),
            r is Ok ==> final(self)@.sent == old(self)@.sent + init_plan(
                old(self)@.config,
                old(self)@.state,
                old(self)@.backlight,
            ),
            r is Err ==> emits_prefix(
                old(self)@.sent,
                final(self)@.sent,
                init_plan(old(self)@.config, old(self)@.state, old(self)@.backlight),
            ),
    {
        let ghost s0 = self@.sent;
        let ghost bl = self@.backlight;
        let ghost cfg = self@.config;
        let ghost st = self@.state;
        let ghost p1 = unit_seq(0x30, bl);
        let ghost p2 = unit_seq(0x30, bl);
        let ghost p3 = unit_seq(0x30, bl);
        let ghost p4 = unit_seq(0x20, bl);
        let ghost p5 = command_plan(Command::FunctionSet, function_set_data(cfg), cfg, bl);
        let ghost p6 = command_plan(Command::DisplayControl, display_control_data(st), cfg, bl);
        let ghost p7 = command_plan(Command::ClearDisplay, 0x00, cfg, bl);
        let ghost p8 = command_plan(Command::EntryModeSet, EntryMode::Left.spec_value(), cfg, bl);
        let ghost plan = init_plan(cfg, st, bl);
        let ghost a1 = p1;
        let ghost a2 = a1 + p2;
        let ghost a3 = a2 + p3;
        let ghost a4 = a3 + p4;
        let ghost a5 = a4 + p5;
        let ghost a6 = a5 + p6;
        let ghost a7 = a6 + p7;

        match self.write_four_bytes(0x30) {
            Ok(()) => {},
            Err(e) => {
                proof {
                    lemma_prefix_widen(s0, self@.sent, p1, p2 + p3 + p4 + p5 + p6 + p7 + p8);
                    assert(p1 + (p2 + p3 + p4 + p5 + p6 + p7 + p8) =~= plan);
                }
                return Err(e);
            },
        }
        let ghost m1 = self@.sent;
        match self.write_four_bytes(0x30) {
            Ok(()) => {
                proof {
                    lemma_step_ok(s0, self@.sent, a1, p2);
                }
            },
            Err(e) => {
                proof {
                    lemma_step_err(s0, m1, self@.sent, a1, p2, p3 + p4 + p5 + p6 + p7 + p8);
                    assert(a1 + p2 + (p3 + p4 + p5 + p6 + p7 + p8) =~= plan);
                }
                return Err(e);
            },
        }
        let ghost m2 = self@.sent;
        match self.write_four_bytes(0x30) {
            Ok(()) => {
                proof {
                    lemma_step_ok(s0, self@.sent, a2, p3);
                }
            },
            Err(e) => {
                proof {
                    lemma_step_err(s0, m2, self@.sent, a2, p3, p4 + p5 + p6 + p7 + p8);
                    assert(a2 + p3 + (p4 + p5 + p6 + p7 + p8) =~= plan);
                }
                return Err(e);
            },
        }
        let ghost m3 = self@.sent;
        match self.write_four_bytes(0x20) {
            Ok(()) => {
                proof {
                    lemma_step_ok(s0, self@.sent, a3, p4);
                }
            },
            Err(e) => {
                proof {
                    lemma_step_err(s0, m3, self@.sent, a3, p4, p5 + p6 + p7 + p8);
                    assert(a3 + p4 + (p5 + p6 + p7 + p8) =~= plan);
                }
                return Err(e);
            },
        }
        let ghost m4 = self@.sent;
        match self.install_function_set() {
            Ok(()) => {
                proof {
                    lemma_step_ok(s0, self@.sent, a4, p5);
                }
            },
            Err(e) => {
                proof {
                    lemma_step_err(s0, m4, self@.sent, a4, p5, p6 + p7 + p8);
                    assert(a4 + p5 + (p6 + p7 + p8) =~= plan);
                }
                return Err(e);
            },
        }
        let ghost m5 = self@.sent;
        match self.apply_display_state() {
            Ok(()) => {
                proof {
                    lemma_step_ok(s0, self@.sent, a5, p6);
                }
            },
            Err(e) => {
                proof {
                    lemma_step_err(s0, m5, self@.sent, a5, p6, p7 + p8);
                    assert(a5 + p6 + (p7 + p8) =~= plan);
                }
                return Err(e);
            },
        }
        let ghost m6 = self@.sent;
        match self.clear() {
            Ok(()) => {
                proof {
                    lemma_step_ok(s0, self@.sent, a6, p7);
                }
            },
            Err(e) => {
                proof {
                    lemma_step_err(s0, m6, self@.sent, a6, p7, p8);
                    assert(a6 + p7 + p8 =~= plan);
                }
                return Err(e);
            },
        }
        let ghost m7 = self@.sent;
        match self.set_entry_mode(EntryMode::Left) {
            Ok(()) => {
                proof {
                    lemma_step_ok(s0, self@.sent, a7, p8);
                }
            },
            Err(e) => {
                proof {
                    lemma_step_err(s0, m7, self@.sent, a7, p8, Seq::<u8>::empty());
                    assert(a7 + p8 + Seq::<u8>::empty() =~= plan);
                }
                return Err(e);
            },
        }
        self.bus.pause(SETUP_DELAY_NS);
        Ok(())
    }
}

} // verus!
