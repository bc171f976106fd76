//! The mathematical model of the wire protocol.
//!
//! Every controller operation is specified by the exact sequence of bytes it
//! puts on the bus, built from a handful of spec functions: a strobed
//! transmission unit (`unit_seq`), the 4-bit/8-bit framing of a logical byte
//! (`write_plan`), the encodings of the configuration and display-state
//! commands, and the plans of the larger operations (`init_plan`,
//! `display_plan`). When an operation fails midway it has emitted a proper
//! prefix of its plan (`emits_prefix`); the lemmas at the end compose that
//! fact across the layers of the pipeline.

use vstd::prelude::*;

use crate::flags::BitMode;
use crate::flags::Command;
use crate::flags::EntryMode;
use crate::flags::WriteMode;
use crate::screen::DisplayState;
use crate::screen::ScreenConfig;

verus! {

/// The backlight overlay: bit 3 of every transmitted byte.
pub open spec fn backlight_flag(on: bool) -> u8 {
    if on {
        0x08
    } else {
        0x00
    }
}

/// A byte as it leaves the controller: the backlight line re-asserted on top
/// of the command bits, because the bridge chip carries both in one byte.
pub open spec fn with_backlight(b: u8, on: bool) -> u8 {
    if on {
        b | 0x08
    } else {
        b
    }
}

/// The two writes of a strobe: the value with the enable bit raised, then the
/// same value with it cleared, which makes the controller latch the data.
pub open spec fn strobe_seq(data: u8, on: bool) -> Seq<u8> {
    seq![
        with_backlight(data | (WriteMode::Enable.spec_value()), on),
        with_backlight(data & !(WriteMode::Enable.spec_value()), on),
    ]
}

/// One transmission unit: the stable value, then its strobe.
pub open spec fn unit_seq(data: u8, on: bool) -> Seq<u8> {
    seq![with_backlight(data, on)] + strobe_seq(data, on)
}

/// The first frame of a 4-bit write: the byte's high nibble in bus position,
/// with the mode bits OR'd in.
pub open spec fn high_frame(command: u8, mode: u8) -> u8 {
    mode | (command & 0xf0)
}

/// The second frame of a 4-bit write: the low nibble pre-shifted into bus
/// position, with the mode bits OR'd in.
pub open spec fn low_frame(command: u8, mode: u8) -> u8 {
    mode | ((command << 4) & 0xf0)
}

/// Every byte a logical write puts on the bus. In 4-bit width the byte goes
/// out as two strobed nibble units, high nibble first; in 8-bit width as the
/// single byte with the mode bits OR'd in, unstrobed.
pub open spec fn write_plan(command: u8, mode: u8, four_bit: bool, on: bool) -> Seq<u8> {
    if four_bit {
        unit_seq(high_frame(command, mode), on) + unit_seq(low_frame(command, mode), on)
    } else {
        seq![with_backlight(mode | command, on)]
    }
}

/// The plan of a command: opcode OR'd with its data bits, written with the
/// register-select line clear.
pub open spec fn command_plan(c: Command, data: u8, cfg: ScreenConfig, on: bool) -> Seq<u8> {
    write_plan(
        c.spec_value() | data,
        WriteMode::Normal.spec_value(),
        cfg.bit_mode is B4,
        on,
    )
}

/// Data bits of the function-set command: the bit-OR of the three
/// configuration fields' raw values.
pub open spec fn function_set_data(cfg: ScreenConfig) -> u8 {
    cfg.bit_mode.spec_value() | cfg.line_count.spec_value() | cfg.matrix_size.spec_value()
}

/// Data bits of the display-control command: the bit-OR of the three display
/// flags' raw values. The three are always transmitted together, so the
/// hardware register is never partially updated.
pub open spec fn display_control_data(st: DisplayState) -> u8 {
    st.status.spec_value() | st.cursor.spec_value() | st.blink.spec_value()
}

/// DDRAM base offset of a row. Rows count from 1; an unrecognized row falls
/// back to row 1's offset (a compatibility quirk, kept but not extended).
pub open spec fn row_base(row: u8) -> u8 {
    if row == 2 {
        0x40
    } else if row == 3 {
        0x14
    } else if row == 4 {
        0x54
    } else {
        0x00
    }
}

/// DDRAM address of a position, as an unbounded integer so that callers state
/// the machine bound explicitly.
pub open spec fn ddram_address(row: u8, col: u8) -> int {
    row_base(row) + col
}

/// A character truncated to the single data byte the controller receives.
pub open spec fn byte_of_char(c: char) -> u8 {
    (c as u32) as u8
}

/// The plan of a text write: each character in source order, as a data byte
/// (register-select line set).
pub open spec fn text_plan(text: Seq<char>, four_bit: bool, on: bool) -> Seq<u8>
    decreases text.len(),
{
    if text.len() == 0 {
        Seq::<u8>::empty()
    } else {
        write_plan(
            byte_of_char(text[0]),
            WriteMode::RegisterSelect.spec_value(),
            four_bit,
            on,
        ) + text_plan(text.skip(1), four_bit, on)
    }
}

/// The plan of placing text: set-DDRAM-address, then the text.
pub open spec fn display_plan(
    text: Seq<char>,
    row: u8,
    col: u8,
    four_bit: bool,
    on: bool,
) -> Seq<u8> {
    write_plan(
        (Command::SetDDRamAddr.spec_value() + ddram_address(row, col)) as u8,
        WriteMode::Normal.spec_value(),
        four_bit,
        on,
    ) + text_plan(text, four_bit, on)
}

/// The cold-start handshake and setup: the raw nibble `0x3` three times and
/// `0x2` once (each a single nibble unit, bypassing byte framing), then
/// function-set, display-control, clear, and entry-mode-set left-to-right.
pub open spec fn init_plan(cfg: ScreenConfig, st: DisplayState, on: bool) -> Seq<u8> {
    unit_seq(0x30, on) + unit_seq(0x30, on) + unit_seq(0x30, on) + unit_seq(0x20, on)
        + command_plan(Command::FunctionSet, function_set_data(cfg), cfg, on)
        + command_plan(Command::DisplayControl, display_control_data(st), cfg, on)
        + command_plan(Command::ClearDisplay, 0x00, cfg, on)
        + command_plan(Command::EntryModeSet, EntryMode::Left.spec_value(), cfg, on)
}

/// The bus history grew by a proper prefix of `plan`: the mark of an
/// operation that failed partway and attempted nothing further.
pub open spec fn emits_prefix(before: Seq<u8>, after: Seq<u8>, plan: Seq<u8>) -> bool {
    exists|k: int| 0 <= k < plan.len() && after == before + plan.take(k)
}

/// Emitting nothing is emitting a proper prefix of any nonempty plan.
pub proof fn lemma_prefix_none(before: Seq<u8>, plan: Seq<u8>)
    requires
        plan.len() > 0,
    ensures
        emits_prefix(before, before, plan),
{
    assert(before + plan.take(0) =~= before);
}

/// A proper prefix of a plan is a proper prefix of any extension of it.
pub proof fn lemma_prefix_widen(before: Seq<u8>, after: Seq<u8>, plan: Seq<u8>, rest: Seq<u8>)
    requires
        emits_prefix(before, after, plan),
    ensures
        emits_prefix(before, after, plan + rest),
{
    let k = choose|k: int| 0 <= k < plan.len() && after == before + plan.take(k);
    assert((plan + rest).take(k) =~= plan.take(k));
    assert(0 <= k < (plan + rest).len());
}

/// A step that completed after earlier steps emitted `done` leaves the
/// history at `start + (done + sub)`.
pub proof fn lemma_step_ok(start: Seq<u8>, now: Seq<u8>, done: Seq<u8>, sub: Seq<u8>)
    requires
        now == (start + done) + sub,
    ensures
        now == start + (done + sub),
{
    assert((start + done) + sub =~= start + (done + sub));
}

/// A step that failed after earlier steps emitted `done` leaves the history
/// at a proper prefix of the whole plan `done + sub + rest`.
pub proof fn lemma_step_err(
    start: Seq<u8>,
    mid: Seq<u8>,
    now: Seq<u8>,
    done: Seq<u8>,
    sub: Seq<u8>,
    rest: Seq<u8>,
)
    requires
        mid == start + done,
        emits_prefix(mid, now, sub),
    ensures
        emits_prefix(start, now, done + sub + rest),
{
    let k = choose|k: int| 0 <= k < sub.len() && now == mid + sub.take(k);
    let j = done.len() + k;
    assert((done + sub + rest).take(j) =~= done + sub.take(k));
    assert(now == start + (done + sub + rest).take(j)) by {
        assert((start + done) + sub.take(k) =~= start + (done + sub.take(k)));
    }
    assert(0 <= j < (done + sub + rest).len());
}

/// The plan of two texts in sequence is the two plans in sequence.
pub proof fn lemma_text_plan_concat(a: Seq<char>, b: Seq<char>, four_bit: bool, on: bool)
    ensures
        text_plan(a + b, four_bit, on) == text_plan(a, four_bit, on) + text_plan(b, four_bit, on),
    decreases a.len(),
{
    if a.len() == 0 {
        assert(a + b =~= b);
        assert(text_plan(a, four_bit, on) == Seq::<u8>::empty());
        assert(Seq::<u8>::empty() + text_plan(b, four_bit, on) =~= text_plan(b, four_bit, on));
    } else {
        assert((a + b)[0] == a[0]);
        assert((a + b).skip(1) =~= a.skip(1) + b);
        lemma_text_plan_concat(a.skip(1), b, four_bit, on);
        let head = write_plan(
            byte_of_char(a[0]),
            WriteMode::RegisterSelect.spec_value(),
            four_bit,
            on,
        );
        assert(text_plan(a + b, four_bit, on) == head + (text_plan(a.skip(1), four_bit, on)
            + text_plan(b, four_bit, on)));
        assert(head + (text_plan(a.skip(1), four_bit, on) + text_plan(b, four_bit, on)) =~= (head
            + text_plan(a.skip(1), four_bit, on)) + text_plan(b, four_bit, on));
    }
}

/// The plan of a single character is that character's frames.
pub proof fn lemma_text_plan_one(c: char, four_bit: bool, on: bool)
    ensures
        text_plan(seq![c], four_bit, on) == write_plan(
            byte_of_char(c),
            WriteMode::RegisterSelect.spec_value(),
            four_bit,
            on,
        ),
{
    let t = seq![c];
    let frames = write_plan(byte_of_char(c), WriteMode::RegisterSelect.spec_value(), four_bit, on);
    assert(t.skip(1) =~= Seq::<char>::empty());
    assert(text_plan(t.skip(1), four_bit, on) == Seq::<u8>::empty());
    assert(frames + Seq::<u8>::empty() =~= frames);
}

/// A text's plan split at position `i`: the plan of the prefix, the frames of
/// the character there, and the plan of the rest.
pub proof fn lemma_text_plan_split(t: Seq<char>, i: int, four_bit: bool, on: bool)
    requires
        0 <= i < t.len(),
    ensures
        text_plan(t, four_bit, on) == text_plan(t.take(i), four_bit, on) + write_plan(
            byte_of_char(t[i]),
            WriteMode::RegisterSelect.spec_value(),
            four_bit,
            on,
        ) + text_plan(t.skip(i + 1), four_bit, on),
{
    assert(t =~= (t.take(i) + seq![t[i]]) + t.skip(i + 1));
    lemma_text_plan_concat(t.take(i) + seq![t[i]], t.skip(i + 1), four_bit, on);
    lemma_text_plan_concat(t.take(i), seq![t[i]], four_bit, on);
    lemma_text_plan_one(t[i], four_bit, on);
}

} // verus!
