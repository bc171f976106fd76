//! Laws of the encoding, stated once over all inputs and proved here.

use vstd::prelude::*;

use crate::flags::Command;
use crate::flags::EntryMode;
use crate::flags::WriteMode;
use crate::protocol::backlight_flag;
use crate::protocol::byte_of_char;
use crate::protocol::command_plan;
use crate::protocol::ddram_address;
use crate::protocol::display_control_data;
use crate::protocol::display_plan;
use crate::protocol::function_set_data;
use crate::protocol::high_frame;
use crate::protocol::init_plan;
use crate::protocol::low_frame;
use crate::protocol::text_plan;
use crate::protocol::unit_seq;
use crate::protocol::with_backlight;
use crate::protocol::write_plan;
use crate::screen::DisplayState;
use crate::screen::ScreenConfig;

verus! {

/// The function-set data byte is the bit-OR of the three configuration
/// fields' raw values, in whichever order they are combined.
pub proof fn lemma_function_set_any_order(cfg: ScreenConfig)
    ensures
        function_set_data(cfg) == cfg.bit_mode.spec_value() | cfg.matrix_size.spec_value()
            | cfg.line_count.spec_value(),
        function_set_data(cfg) == cfg.line_count.spec_value() | cfg.bit_mode.spec_value()
            | cfg.matrix_size.spec_value(),
        function_set_data(cfg) == cfg.line_count.spec_value() | cfg.matrix_size.spec_value()
            | cfg.bit_mode.spec_value(),
        function_set_data(cfg) == cfg.matrix_size.spec_value() | cfg.bit_mode.spec_value()
            | cfg.line_count.spec_value(),
        function_set_data(cfg) == cfg.matrix_size.spec_value() | cfg.line_count.spec_value()
            | cfg.bit_mode.spec_value(),
{
    let b = cfg.bit_mode.spec_value();
    let l = cfg.line_count.spec_value();
    let m = cfg.matrix_size.spec_value();
    assert(b | l | m == b | m | l && b | l | m == l | b | m && b | l | m == l | m | b && b | l | m
        == m | b | l && b | l | m == m | l | b) by (bit_vector);
}

/// Each display-control data bit reads back exactly one of the three flags:
/// bit 2 the power flag, bit 1 the cursor flag, bit 0 the blink flag.
pub proof fn lemma_display_control_bits(st: DisplayState)
    ensures
        display_control_data(st) & 0x04 == st.status.spec_value(),
        display_control_data(st) & 0x02 == st.cursor.spec_value(),
        display_control_data(st) & 0x01 == st.blink.spec_value(),
{
    let p = st.status.spec_value();
    let c = st.cursor.spec_value();
    let b = st.blink.spec_value();
    assert(p == 0 || p == 4);
    assert(c == 0 || c == 2);
    assert(b == 0 || b == 1);
    assert((p | c | b) & 0x04 == p && (p | c | b) & 0x02 == c && (p | c | b) & 0x01 == b)
        by (bit_vector)
        requires
            (p == 0 || p == 4) && (c == 0 || c == 2) && (b == 0 || b == 1),
    ;
}

/// Changing one display flag through its setter leaves the other two bits of
/// the next applied display-control byte exactly as they were.
pub proof fn lemma_setter_preserves_other_flags(st: DisplayState, on: bool)
    ensures
        display_control_data(st.with_status(on)) & 0x03 == display_control_data(st) & 0x03,
        display_control_data(st.with_cursor(on)) & 0x05 == display_control_data(st) & 0x05,
        display_control_data(st.with_blink(on)) & 0x06 == display_control_data(st) & 0x06,
{
    let p = st.status.spec_value();
    let c = st.cursor.spec_value();
    let b = st.blink.spec_value();
    let p2 = st.with_status(on).status.spec_value();
    let c2 = st.with_cursor(on).cursor.spec_value();
    let b2 = st.with_blink(on).blink.spec_value();
    assert(p & 0x03 == 0 && p2 & 0x03 == 0 && c & 0x05 == 0 && c2 & 0x05 == 0 && b & 0x06 == 0
        && b2 & 0x06 == 0) by (bit_vector)
        requires
            (p == 0 || p == 4) && (p2 == 0 || p2 == 4) && (c == 0 || c == 2) && (c2 == 0 || c2
                == 2) && (b == 0 || b == 1) && (b2 == 0 || b2 == 1),
    ;
    assert((p2 | c | b) & 0x03 == (p | c | b) & 0x03) by (bit_vector)
        requires
            p & 0x03 == 0 && p2 & 0x03 == 0,
    ;
    assert((p | c2 | b) & 0x05 == (p | c | b) & 0x05) by (bit_vector)
        requires
            c & 0x05 == 0 && c2 & 0x05 == 0,
    ;
    assert((p | c | b2) & 0x06 == (p | c | b) & 0x06) by (bit_vector)
        requires
            b & 0x06 == 0 && b2 & 0x06 == 0,
    ;
}

/// Setting the cursor flag a second time changes nothing: the state, and with
/// it the applied display-control byte, are the same after both calls, and
/// the power and blink flags keep their prior values throughout.
pub proof fn lemma_set_cursor_idempotent(st: DisplayState, on: bool)
    ensures
        st.with_cursor(on).with_cursor(on) == st.with_cursor(on),
        display_control_data(st.with_cursor(on).with_cursor(on)) == display_control_data(
            st.with_cursor(on),
        ),
        st.with_cursor(on).status == st.status,
        st.with_cursor(on).blink == st.blink,
{
}

/// Every byte of `s` carries the backlight line in bit 3: set when the
/// backlight is on, clear when it is off.
pub open spec fn all_carry_backlight(s: Seq<u8>, on: bool) -> bool {
    forall|i: int| 0 <= i < s.len() ==> (#[trigger] s[i]) & 0x08 == backlight_flag(on)
}

/// Two plans that carry the backlight carry it in sequence.
pub proof fn lemma_backlight_concat(a: Seq<u8>, b: Seq<u8>, on: bool)
    requires
        all_carry_backlight(a, on),
        all_carry_backlight(b, on),
    ensures
        all_carry_backlight(a + b, on),
{
    assert forall|i: int| 0 <= i < (a + b).len() implies (#[trigger] (a + b)[i]) & 0x08
        == backlight_flag(on) by {
        if i < a.len() {
            assert((a + b)[i] == a[i]);
        } else {
            assert((a + b)[i] == b[i - a.len()]);
        }
    }
}

/// A transmission unit of a value that does not itself use bit 3 carries the
/// backlight line in every byte.
pub proof fn lemma_backlight_unit(data: u8, on: bool)
    requires
        data & 0x08 == 0,
    ensures
        all_carry_backlight(unit_seq(data, on), on),
{
    let f = backlight_flag(on);
    assert((data | 0x04) & 0x08 == 0 && (data & !0x04) & 0x08 == 0) by (bit_vector)
        requires
            data & 0x08 == 0,
    ;
    assert((data | 0x08) & 0x08 == 0x08 && ((data | 0x04) | 0x08) & 0x08 == 0x08 && ((data
        & !0x04) | 0x08) & 0x08 == 0x08) by (bit_vector);
    let u = unit_seq(data, on);
    assert(u.len() == 3);
    assert(u[0] == with_backlight(data, on));
    assert(u[1] == with_backlight(data | 0x04, on));
    assert(u[2] == with_backlight(data & !0x04, on));
    assert forall|i: int| 0 <= i < u.len() implies (#[trigger] u[i]) & 0x08 == f by {
        assert(i == 0 || i == 1 || i == 2);
    }
}

/// In 4-bit width every byte of a logical write carries the backlight line,
/// whatever the command, mode and backlight state; in 8-bit width likewise,
/// as long as the byte itself leaves bit 3 free. (An 8-bit command that uses
/// bit 3, sent with the backlight off, is the one case where the wire bit
/// cannot reflect the state: the two share a line.)
pub proof fn lemma_backlight_write_plan(command: u8, mode: u8, four_bit: bool, on: bool)
    requires
        mode & 0x08 == 0,
        four_bit || command & 0x08 == 0,
    ensures
        all_carry_backlight(write_plan(command, mode, four_bit, on), on),
{
    if four_bit {
        let hi = high_frame(command, mode);
        let lo = low_frame(command, mode);
        assert((mode | (command & 0xf0)) & 0x08 == 0 && (mode | ((command << 4) & 0xf0)) & 0x08
            == 0) by (bit_vector)
            requires
                mode & 0x08 == 0,
        ;
        lemma_backlight_unit(hi, on);
        lemma_backlight_unit(lo, on);
        lemma_backlight_concat(unit_seq(hi, on), unit_seq(lo, on), on);
    } else {
        let v = mode | command;
        assert((mode | command) & 0x08 == 0) by (bit_vector)
            requires
                mode & 0x08 == 0 && command & 0x08 == 0,
        ;
        assert((v | 0x08) & 0x08 == 0x08) by (bit_vector);
        let p = write_plan(command, mode, four_bit, on);
        assert(p.len() == 1);
        assert(p[0] == with_backlight(v, on));
    }
}

/// Every byte a command puts on a 4-bit bus carries the backlight line.
pub proof fn lemma_backlight_command_plan(c: Command, data: u8, cfg: ScreenConfig, on: bool)
    requires
        cfg.bit_mode is B4,
    ensures
        all_carry_backlight(command_plan(c, data, cfg, on), on),
{
    assert(0x00u8 & 0x08 == 0) by (bit_vector);
    lemma_backlight_write_plan(
        c.spec_value() | data,
        WriteMode::Normal.spec_value(),
        true,
        on,
    );
}

/// Every byte of a text write on a 4-bit bus carries the backlight line.
pub proof fn lemma_backlight_text_plan(text: Seq<char>, on: bool)
    ensures
        all_carry_backlight(text_plan(text, true, on), on),
    decreases text.len(),
{
    if text.len() == 0 {
    } else {
        assert(0x01u8 & 0x08 == 0) by (bit_vector);
        lemma_backlight_write_plan(
            byte_of_char(text[0]),
            WriteMode::RegisterSelect.spec_value(),
            true,
            on,
        );
        lemma_backlight_text_plan(text.skip(1), on);
        lemma_backlight_concat(
            write_plan(
                byte_of_char(text[0]),
                WriteMode::RegisterSelect.spec_value(),
                true,
                on,
            ),
            text_plan(text.skip(1), true, on),
            on,
        );
    }
}

/// Every byte of a text placement on a 4-bit bus carries the backlight line.
pub proof fn lemma_backlight_display_plan(text: Seq<char>, row: u8, col: u8, on: bool)
    ensures
        all_carry_backlight(display_plan(text, row, col, true, on), on),
{
    assert(0x00u8 & 0x08 == 0) by (bit_vector);
    lemma_backlight_write_plan(
        (Command::SetDDRamAddr.spec_value() + ddram_address(row, col)) as u8,
        WriteMode::Normal.spec_value(),
        true,
        on,
    );
    lemma_backlight_text_plan(text, on);
    lemma_backlight_concat(
        write_plan(
            (Command::SetDDRamAddr.spec_value() + ddram_address(row, col)) as u8,
            WriteMode::Normal.spec_value(),
            true,
            on,
        ),
        text_plan(text, true, on),
        on,
    );
}

/// Every byte of the cold-start sequence on a 4-bit bus carries the
/// backlight line.
pub proof fn lemma_backlight_init_plan(cfg: ScreenConfig, st: DisplayState, on: bool)
    requires
        cfg.bit_mode is B4,
    ensures
        all_carry_backlight(init_plan(cfg, st, on), on),
{
    assert(0x30u8 & 0x08 == 0 && 0x20u8 & 0x08 == 0) by (bit_vector);
    lemma_backlight_unit(0x30, on);
    lemma_backlight_unit(0x20, on);
    lemma_backlight_command_plan(Command::FunctionSet, function_set_data(cfg), cfg, on);
    lemma_backlight_command_plan(Command::DisplayControl, display_control_data(st), cfg, on);
    lemma_backlight_command_plan(Command::ClearDisplay, 0x00, cfg, on);
    lemma_backlight_command_plan(
        Command::EntryModeSet,
        EntryMode::Left.spec_value(),
        cfg,
        on,
    );
    let u3 = unit_seq(0x30, on);
    let u2 = unit_seq(0x20, on);
    let p5 = command_plan(Command::FunctionSet, function_set_data(cfg), cfg, on);
    let p6 = command_plan(Command::DisplayControl, display_control_data(st), cfg, on);
    let p7 = command_plan(Command::ClearDisplay, 0x00, cfg, on);
    let p8 = command_plan(Command::EntryModeSet, EntryMode::Left.spec_value(), cfg, on);
    lemma_backlight_concat(u3, u3, on);
    lemma_backlight_concat(u3 + u3, u3, on);
    lemma_backlight_concat(u3 + u3 + u3, u2, on);
    lemma_backlight_concat(u3 + u3 + u3 + u2, p5, on);
    lemma_backlight_concat(u3 + u3 + u3 + u2 + p5, p6, on);
    lemma_backlight_concat(u3 + u3 + u3 + u2 + p5 + p6, p7, on);
    lemma_backlight_concat(u3 + u3 + u3 + u2 + p5 + p6 + p7, p8, on);
}

} // verus!
