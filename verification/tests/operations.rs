use hd44780::{
    Cursor, CursorBlink, CursorMode, DataBus, Direction, Display, DisplayMode, EntryMode,
    FourBitBus, HD44780, I2CBus, LineOp, ShiftMode,
};

/// A command write over a fresh 4-bit bus, with the steady-state settle.
fn command(byte: u8) -> Vec<LineOp> {
    let mut bus = FourBitBus::new();
    let mut ops = bus.write(byte, false);
    ops.push(LineOp::Delay(100));
    ops
}

/// A data write over a fresh 4-bit bus, with the steady-state settle.
fn data(byte: u8) -> Vec<LineOp> {
    let mut bus = FourBitBus::new();
    let mut ops = bus.write(byte, true);
    ops.push(LineOp::Delay(100));
    ops
}

fn fresh() -> HD44780<FourBitBus> {
    HD44780 {
        bus: FourBitBus::new(),
        entry_mode: EntryMode::default(),
        display_mode: DisplayMode::default(),
    }
}

#[test]
fn default_mode_bytes() {
    assert_eq!(EntryMode::default().as_byte(), 0x06);
    assert_eq!(DisplayMode::default().as_byte(), 0x0E);
}

#[test]
fn entry_mode_bytes() {
    let em = EntryMode { cursor_mode: CursorMode::Left, shift_mode: ShiftMode::On };
    assert_eq!(em.as_byte(), 0x05);
    let em = EntryMode { cursor_mode: CursorMode::Right, shift_mode: ShiftMode::On };
    assert_eq!(em.as_byte(), 0x07);
    let em = EntryMode { cursor_mode: CursorMode::Left, shift_mode: ShiftMode::Off };
    assert_eq!(em.as_byte(), 0x04);
}

#[test]
fn display_mode_bytes() {
    let dm = DisplayMode {
        display: Display::Off,
        cursor_visibility: Cursor::Invisible,
        cursor_blink: CursorBlink::Off,
    };
    assert_eq!(dm.as_byte(), 0x08);
    let dm = DisplayMode {
        display: Display::On,
        cursor_visibility: Cursor::Invisible,
        cursor_blink: CursorBlink::On,
    };
    assert_eq!(dm.as_byte(), 0x0D);
}

#[test]
fn reset_issues_return_home_variant() {
    let mut hd = fresh();
    assert_eq!(hd.reset(), command(0x02));
}

#[test]
fn clear_is_idempotent() {
    let mut hd = fresh();
    let entry_before = hd.entry_mode;
    let display_before = hd.display_mode;
    let first = hd.clear();
    let second = hd.clear();
    assert_eq!(first, command(0x01));
    assert_eq!(second, command(0x01));
    assert_eq!(hd.entry_mode, entry_before);
    assert_eq!(hd.display_mode, display_before);
}

#[test]
fn mode_setters_recompute_command_bytes() {
    let mut hd = fresh();
    assert_eq!(hd.set_autoscroll(true), command(0x07));
    assert_eq!(hd.set_cursor_mode(CursorMode::Left), command(0x05));
    assert_eq!(hd.set_autoscroll(false), command(0x04));
    assert_eq!(hd.set_display(Display::Off), command(0x0A));
    assert_eq!(hd.set_cursor_visibility(Cursor::Invisible), command(0x08));
    assert_eq!(hd.set_cursor_blink(CursorBlink::On), command(0x09));
    let dm = DisplayMode {
        display: Display::On,
        cursor_visibility: Cursor::Visible,
        cursor_blink: CursorBlink::Off,
    };
    assert_eq!(hd.set_display_mode(dm), command(0x0E));
    assert_eq!(hd.display_mode, dm);
}

#[test]
fn set_cursor_pos_masks_into_ddram_address() {
    let mut hd = fresh();
    assert_eq!(hd.set_cursor_pos(40), command(0xA8));
    // The upper bit of the position is masked away.
    assert_eq!(hd.set_cursor_pos(0x80 | 40), command(0xA8));
}

#[test]
fn shift_commands() {
    let mut hd = fresh();
    assert_eq!(hd.shift_cursor(Direction::Left), command(0x10));
    assert_eq!(hd.shift_cursor(Direction::Right), command(0x14));
    assert_eq!(hd.shift_display(Direction::Left), command(0x18));
    assert_eq!(hd.shift_display(Direction::Right), command(0x1C));
}

#[test]
fn write_byte_targets_data_register() {
    let mut hd = fresh();
    assert_eq!(hd.write_byte(0x41), data(0x41));
}

#[test]
fn write_char_truncates_to_low_byte() {
    let mut hd = fresh();
    assert_eq!(hd.write_char('A'), data(0x41));
    assert_eq!(hd.write_char('\u{0141}'), data(0x41));
}

#[test]
fn write_str_is_one_data_write_per_byte() {
    let mut hd = fresh();
    let mut expected = data(0x41);
    expected.extend(data(0x42));
    assert_eq!(hd.write_str("AB"), expected);
    assert_eq!(hd.write_bytes(b"AB"), expected);
    assert_eq!(hd.write_str(""), Vec::new());
}

#[test]
fn init_4bit_sequence_is_exact_and_total() {
    let (hd, ops) = HD44780::new_4bit(FourBitBus::new());
    assert_eq!(hd.entry_mode, EntryMode::default());
    assert_eq!(hd.display_mode, DisplayMode::default());

    let mut expected = vec![LineOp::Delay(15000)];
    let mut bus = FourBitBus::new();
    for byte in [0x33, 0x32, 0x28, 0x0E, 0x01, 0x06, 0x80] {
        expected.extend(bus.write(byte, false));
        expected.push(LineOp::Delay(5000));
    }
    assert_eq!(ops, expected);
}

#[test]
fn init_8bit_sequence_is_exact_and_total() {
    let (hd, ops) = HD44780::new_8bit(hd44780::EightBitBus::new());
    assert_eq!(hd.entry_mode, EntryMode::default());

    let mut expected = vec![LineOp::Delay(15000)];
    let mut bus = hd44780::EightBitBus::new();
    expected.extend(bus.write(0x30, false));
    expected.push(LineOp::Delay(5000));
    for byte in [0x38, 0x0E, 0x01, 0x07, 0x06] {
        expected.extend(bus.write(byte, false));
        expected.push(LineOp::Delay(100));
    }
    assert_eq!(ops, expected);
}

#[test]
fn init_i2c_follows_the_4bit_sequence() {
    let (hd, ops) = HD44780::new_i2c(I2CBus::new(0x27));
    assert_eq!(hd.bus.address, 0x27);

    let mut expected = vec![LineOp::Delay(15000)];
    let mut bus = I2CBus::new(0x27);
    for byte in [0x33, 0x32, 0x28, 0x0E, 0x01, 0x06, 0x80] {
        expected.extend(bus.write(byte, false));
        expected.push(LineOp::Delay(5000));
    }
    assert_eq!(ops, expected);
}
