use i2c_16x2::BitMode;
use i2c_16x2::BusError;
use i2c_16x2::EntryMode;
use i2c_16x2::EntryShift;
use i2c_16x2::LineCount;
use i2c_16x2::MatrixSize;
use i2c_16x2::Screen;
use i2c_16x2::ScreenConfig;
use i2c_16x2::TraceBus;
use i2c_16x2::WriteMode;

/// The backlight overlay, as the bridge chip carries it.
fn overlay(b: u8, on: bool) -> u8 {
    if on {
        b | 0x08
    } else {
        b
    }
}

/// One strobed transmission unit: the stable value, enable raised, enable
/// cleared; every byte with the backlight overlay.
fn push_unit(v: &mut Vec<u8>, data: u8, on: bool) {
    v.push(overlay(data, on));
    v.push(overlay(data | 0x04, on));
    v.push(overlay(data & !0x04, on));
}

/// A logical byte in 4-bit width: two nibble units, high nibble first.
fn push_write4(v: &mut Vec<u8>, cmd: u8, mode: u8, on: bool) {
    push_unit(v, mode | (cmd & 0xf0), on);
    push_unit(v, mode | ((cmd << 4) & 0xf0), on);
}

fn four_bit_screen() -> Screen<TraceBus> {
    Screen::new(ScreenConfig::default(), TraceBus::new())
}

#[test]
fn test_init() {
    let _config = ScreenConfig::default();
}

#[test]
fn function_set_is_or_of_config_fields() {
    // {4-bit, 2-line, 5x8}: flags 0x00|0x08|0x00, command byte 0x28.
    let mut screen = four_bit_screen();
    screen.install_function_set().unwrap();
    let mut expected = Vec::new();
    push_write4(&mut expected, 0x28, 0x00, true);
    assert_eq!(screen.bus().bytes(), &expected);

    // {8-bit, 1-line, 5x10}: flags 0x10|0x00|0x04, command byte 0x34.
    let config = ScreenConfig::new(BitMode::B8, LineCount::L1, MatrixSize::M5x10);
    let mut screen = Screen::new(config, TraceBus::new());
    screen.install_function_set().unwrap();
    assert_eq!(screen.bus().bytes(), &vec![overlay(0x34, true)]);
}

#[test]
fn display_state_byte_is_or_of_flags() {
    // Fresh controller: power, cursor and blink all on -> 0x04|0x02|0x01.
    let mut screen = four_bit_screen();
    screen.apply_display_state().unwrap();
    let mut expected = Vec::new();
    push_write4(&mut expected, 0x08 | 0x07, 0x00, true);
    assert_eq!(screen.bus().bytes(), &expected);
}

#[test]
fn setter_changes_one_flag_and_preserves_the_others() {
    let mut screen = four_bit_screen();
    // Cursor off: power and blink stay on -> 0x04|0x01.
    screen.set_cursor(false).unwrap();
    // Blink off: power stays on, cursor stays off -> 0x04.
    screen.set_blink(false).unwrap();
    // Power off: cursor and blink stay off -> 0x00.
    screen.set_status(false).unwrap();
    let mut expected = Vec::new();
    push_write4(&mut expected, 0x08 | 0x05, 0x00, true);
    push_write4(&mut expected, 0x08 | 0x04, 0x00, true);
    push_write4(&mut expected, 0x08, 0x00, true);
    assert_eq!(screen.bus().bytes(), &expected);
}

#[test]
fn set_cursor_twice_is_idempotent() {
    let mut screen = four_bit_screen();
    screen.set_blink(false).unwrap();
    let before = screen.bus().bytes().len();
    screen.set_cursor(true).unwrap();
    let after_first = screen.bus().bytes().len();
    screen.set_cursor(true).unwrap();
    let trace = screen.bus().bytes();
    let first = &trace[before..after_first];
    let second = &trace[after_first..];
    // Two identical applied-state bytes: power on, cursor on, blink off.
    assert_eq!(first, second);
    let mut expected = Vec::new();
    push_write4(&mut expected, 0x08 | 0x06, 0x00, true);
    assert_eq!(first, &expected[..]);
}

#[test]
fn four_bit_write_emits_two_nibble_transmissions() {
    let mut screen = four_bit_screen();
    screen.write(0xab, WriteMode::Normal).unwrap();
    let mut expected = Vec::new();
    push_unit(&mut expected, 0xa0, true);
    push_unit(&mut expected, 0xb0, true);
    assert_eq!(screen.bus().bytes(), &expected);

    // The mode bits ride on both nibbles.
    let mut screen = four_bit_screen();
    screen.write(0x5c, WriteMode::RegisterSelect).unwrap();
    let mut expected = Vec::new();
    push_unit(&mut expected, 0x51, true);
    push_unit(&mut expected, 0xc1, true);
    assert_eq!(screen.bus().bytes(), &expected);
}

#[test]
fn eight_bit_write_emits_one_transmission() {
    let config = ScreenConfig::new(BitMode::B8, LineCount::L2, MatrixSize::M5x8);
    let mut screen = Screen::new(config, TraceBus::new());
    screen.write(0x23, WriteMode::Normal).unwrap();
    screen.write(0x23, WriteMode::RegisterSelect).unwrap();
    assert_eq!(
        screen.bus().bytes(),
        &vec![overlay(0x23, true), overlay(0x23 | 0x01, true)]
    );
}

#[test]
fn every_byte_carries_the_backlight_state() {
    // Backlight on (the default): bit 3 set in every transmitted byte.
    let mut screen = four_bit_screen();
    screen.clear().unwrap();
    screen.set_cursor(false).unwrap();
    screen.display("Hi", 1, 0).unwrap();
    for &b in screen.bus().bytes().iter() {
        assert_eq!(b & 0x08, 0x08);
    }

    // Backlight off: bit 3 clear in every byte after the toggle.
    let mut screen = four_bit_screen();
    screen.set_backlight(false).unwrap();
    let from = screen.bus().bytes().len();
    screen.clear().unwrap();
    screen.set_cursor(false).unwrap();
    screen.display("Hi", 1, 0).unwrap();
    for &b in screen.bus().bytes()[from..].iter() {
        assert_eq!(b & 0x08, 0x00);
    }
}

#[test]
fn set_backlight_writes_the_overlay_bit_alone() {
    let mut screen = four_bit_screen();
    screen.set_backlight(false).unwrap();
    screen.set_backlight(true).unwrap();
    assert_eq!(screen.bus().bytes(), &vec![0x00, 0x08]);
}

#[test]
fn ddram_addresses_per_row() {
    // (row, col) -> DDRAM address: set-DDRAM-address byte is 0x80 | address.
    let cases: Vec<(u8, u8, u8)> = vec![
        (1, 0, 0x00),
        (2, 0, 0x40),
        (3, 5, 0x19),
        (4, 0, 0x54),
        // An out-of-range row falls back to column-only addressing.
        (9, 3, 0x03),
        // The far end of the controller's 7-bit address space.
        (4, 0x2b, 0x7f),
    ];
    for &(row, col, addr) in cases.iter() {
        let mut screen = four_bit_screen();
        screen.display("", row, col).unwrap();
        let mut expected = Vec::new();
        push_write4(&mut expected, 0x80 + addr, 0x00, true);
        assert_eq!(screen.bus().bytes(), &expected);
    }
}

#[test]
fn display_writes_characters_as_data_bytes() {
    let mut screen = four_bit_screen();
    screen.display("AB", 2, 1).unwrap();
    let mut expected = Vec::new();
    push_write4(&mut expected, 0xc1, 0x00, true);
    push_write4(&mut expected, 0x41, 0x01, true);
    push_write4(&mut expected, 0x42, 0x01, true);
    assert_eq!(screen.bus().bytes(), &expected);
}

#[test]
fn entry_mode_commands() {
    let mut screen = four_bit_screen();
    screen.set_entry_mode(EntryMode::Left).unwrap();
    screen.set_entry_mode(EntryMode::Right).unwrap();
    screen
        .set_entry_mode_shift(EntryMode::Left, EntryShift::Increment)
        .unwrap();
    let mut expected = Vec::new();
    push_write4(&mut expected, 0x04 | 0x02, 0x00, true);
    push_write4(&mut expected, 0x04, 0x00, true);
    push_write4(&mut expected, 0x04 | 0x02 | 0x01, 0x00, true);
    assert_eq!(screen.bus().bytes(), &expected);
}

#[test]
fn init_emits_the_documented_cold_start_trace() {
    // {4-bit, 2-line, 5x8}; fresh state: everything on, backlight on.
    let mut screen = four_bit_screen();
    screen.init().unwrap();
    let mut expected = Vec::new();
    // Three raw nibble writes of 0x3 (bus position 0x30), one of 0x2.
    push_unit(&mut expected, 0x30, true);
    push_unit(&mut expected, 0x30, true);
    push_unit(&mut expected, 0x30, true);
    push_unit(&mut expected, 0x20, true);
    // Function set: 0x20 | (0x00|0x08|0x00).
    push_write4(&mut expected, 0x28, 0x00, true);
    // Display control: all three flags on.
    push_write4(&mut expected, 0x08 | 0x07, 0x00, true);
    // Clear display.
    push_write4(&mut expected, 0x01, 0x00, true);
    // Entry mode set, left-to-right.
    push_write4(&mut expected, 0x04 | 0x02, 0x00, true);
    assert_eq!(screen.bus().bytes(), &expected);
}

#[test]
fn eight_bit_init_keeps_nibble_handshake() {
    // The cold-start handshake stays nibble-wide even in 8-bit width; the
    // commands after it go out as single bytes.
    let config = ScreenConfig::new(BitMode::B8, LineCount::L1, MatrixSize::M5x8);
    let mut screen = Screen::new(config, TraceBus::new());
    screen.init().unwrap();
    let mut expected = Vec::new();
    push_unit(&mut expected, 0x30, true);
    push_unit(&mut expected, 0x30, true);
    push_unit(&mut expected, 0x30, true);
    push_unit(&mut expected, 0x20, true);
    // Function set 0x20|0x10, display control 0x08|0x07, clear, entry mode.
    expected.push(overlay(0x30, true));
    expected.push(overlay(0x0f, true));
    expected.push(overlay(0x01, true));
    expected.push(overlay(0x06, true));
    assert_eq!(screen.bus().bytes(), &expected);
}

#[test]
fn bus_failure_aborts_with_no_further_transmissions() {
    // Let the bus accept exactly 7 bytes; the 8th write fails, init returns
    // the bus error, and nothing more is attempted.
    let mut screen = Screen::new(ScreenConfig::default(), TraceBus::failing_from(7));
    let r = screen.init();
    assert!(matches!(r, Err(BusError)));
    assert_eq!(screen.bus().bytes().len(), 7);

    // The bytes that did go out are the plan's prefix.
    let mut full = Vec::new();
    push_unit(&mut full, 0x30, true);
    push_unit(&mut full, 0x30, true);
    push_unit(&mut full, 0x30, true);
    assert_eq!(screen.bus().bytes()[..], full[..7]);
}

#[test]
fn bus_failure_in_display_stops_mid_text() {
    // The address write (6 bytes) and half of the first character pass; the
    // first character's fourth byte fails.
    let mut screen = Screen::new(ScreenConfig::default(), TraceBus::failing_from(9));
    let r = screen.display("AB", 1, 0);
    assert!(matches!(r, Err(BusError)));
    assert_eq!(screen.bus().bytes().len(), 9);
}

#[test]
fn bus_error_message() {
    assert_eq!(BusError.message(), "bus write failed");
}
