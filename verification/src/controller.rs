use crate::bus::eightbit::EightBitBus;
use crate::bus::fourbit::FourBitBus;
use crate::bus::i2c::I2CBus;
use crate::bus::DataBus;
use crate::display_mode::{Cursor, CursorBlink, Display, DisplayMode};
use crate::entry_mode::{CursorMode, EntryMode, ShiftMode};
use crate::ops::LineOp;
use vstd::prelude::*;
use vstd::string::StringSliceAdditionalSpecFns;

verus! {

/// Which way [`HD44780::shift_cursor`] and [`HD44780::shift_display`] move.
#[derive(Clone, Copy, Debug, PartialEq, Eq)]
pub enum Direction {
    Left,
    Right,
}

/// The line-level operations of one instruction write over `bus`, followed
/// by its settle delay of `settle_us` microseconds.
pub open spec fn command_ops<B: DataBus>(bus: B, byte: u8, settle_us: u32) -> Seq<LineOp> {
    bus.write_ops(byte, false) + seq![LineOp::Delay(settle_us)]
}

/// The line-level operations of one data-register write over `bus`,
/// followed by the 100 microsecond settle delay.
pub open spec fn data_ops<B: DataBus>(bus: B, byte: u8) -> Seq<LineOp> {
    bus.write_ops(byte, true) + seq![LineOp::Delay(100)]
}

/// The line-level operations that print `bytes` in order: one data write
/// with its settle delay per byte.
pub open spec fn text_ops<B: DataBus>(bus: B, bytes: Seq<u8>) -> Seq<LineOp>
    decreases bytes.len(),
{
    if bytes.len() == 0 {
        Seq::empty()
    } else {
        text_ops(bus, bytes.drop_last()) + data_ops(bus, bytes.last())
    }
}

/// The complete initialization of the chip into 4-bit operation, also used
/// over the I2C transport: a 15 ms power-up settle, then exactly seven
/// instruction writes — wake into 4-bit mode (`0x33`, `0x32`), function set
/// (`0x28`), display control (`0x0E`), clear (`0x01`), the entry mode in
/// force, and cursor to home (`0x80`) — each followed by a 5 ms settle.
pub open spec fn init_ops_4bit<B: DataBus>(bus: B, entry: EntryMode) -> Seq<LineOp> {
    seq![LineOp::Delay(15000)] + command_ops(bus, 0x33, 5000) + command_ops(bus, 0x32, 5000)
        + command_ops(bus, 0x28, 5000) + command_ops(bus, 0x0E, 5000) + command_ops(
        bus,
        0x01,
        5000,
    ) + command_ops(bus, entry.spec_as_byte(), 5000) + command_ops(bus, 0x80, 5000)
}

/// The complete initialization of the chip into 8-bit operation, per the
/// datasheet's 8-bit procedure: a 15 ms power-up settle, a wake write
/// (`0b0011_0000`) with a 5 ms settle, then function set, display control,
/// clear, cursor home and the entry mode in force, each followed by a
/// 100 microsecond settle.
pub open spec fn init_ops_8bit<B: DataBus>(bus: B, entry: EntryMode) -> Seq<LineOp> {
    seq![LineOp::Delay(15000)] + command_ops(bus, 0b0011_0000, 5000) + command_ops(
        bus,
        0b0011_1000,
        100,
    ) + command_ops(bus, 0b0000_1110, 100) + command_ops(bus, 0b0000_0001, 100) + command_ops(
        bus,
        0b0000_0111,
        100,
    ) + command_ops(bus, entry.spec_as_byte(), 100)
}

/// The byte a character is printed as: its scalar value truncated to eight
/// bits, passed through to the controller's ROM character table.
pub open spec fn char_byte(c: char) -> u8 {
    ((c as u32) & 0xFF) as u8
}

/// One HD44780 controller: a transport encoder together with the entry-mode
/// and display-mode options last commanded.
///
/// The stored modes are the single source of truth for the command byte
/// that would reproduce the chip's last-known state. Every operation
/// mutates them first (where it mutates anything) and then returns the
/// operations of the matching command write, so if the host fails to
/// perform a returned sequence, the stored mode may run ahead of the
/// hardware until the next successful write of the same command.
pub struct HD44780<B: DataBus> {
    pub bus: B,
    pub entry_mode: EntryMode,
    pub display_mode: DisplayMode,
}

impl HD44780<FourBitBus> {
    /// A controller on the 4-bit parallel transport, in its power-on modes,
    /// together with the initialization writes the host must perform — in
    /// order, completely, before anything else — to make the instance
    /// usable. If any of them fails, the instance must be discarded.
    pub fn new_4bit(bus: FourBitBus) -> (r: (HD44780<FourBitBus>, Vec<LineOp>))
        ensures
            r.0 == (HD44780::<FourBitBus> {
                bus,
                entry_mode: EntryMode::default_spec(),
                display_mode: DisplayMode::default_spec(),
            }),
            r.1@ == init_ops_4bit(bus, EntryMode::default_spec()),
    {
        let mut hd = HD44780 {
            bus,
            entry_mode: EntryMode::default(),
            display_mode: DisplayMode::default(),
        };
        let ops = hd.init_4bit();
        (hd, ops)
    }
}

impl HD44780<EightBitBus> {
    /// A controller on the 8-bit parallel transport; otherwise as
    /// [`HD44780::new_4bit`].
    pub fn new_8bit(bus: EightBitBus) -> (r: (HD44780<EightBitBus>, Vec<LineOp>))
        ensures
            r.0 == (HD44780::<EightBitBus> {
                bus,
                entry_mode: EntryMode::default_spec(),
                display_mode: DisplayMode::default_spec(),
            }),
            r.1@ == init_ops_8bit(bus, EntryMode::default_spec()),
    {
        let mut hd = HD44780 {
            bus,
            entry_mode: EntryMode::default(),
            display_mode: DisplayMode::default(),
        };
        let ops = hd.init_8bit();
        (hd, ops)
    }
}

impl HD44780<I2CBus> {
    /// A controller on the I2C transport. The expander drives the chip's
    /// 4-bit interface, so initialization follows the 4-bit sequence;
    /// otherwise as [`HD44780::new_4bit`].
    pub fn new_i2c(bus: I2CBus) -> (r: (HD44780<I2CBus>, Vec<LineOp>))
        ensures
            r.0 == (HD44780::<I2CBus> {
                bus,
                entry_mode: EntryMode::default_spec(),
                display_mode: DisplayMode::default_spec(),
            }),
            r.1@ == init_ops_4bit(bus, EntryMode::default_spec()),
    {
        let mut hd = HD44780 {
            bus,
            entry_mode: EntryMode::default(),
            display_mode: DisplayMode::default(),
        };
        let ops = hd.init_4bit();
        (hd, ops)
    }
}

impl<B: DataBus> HD44780<B> {
    /// Append one instruction write and its settle delay to `ops`.
    fn emit_command(&mut self, ops: &mut Vec<LineOp>, byte: u8, settle_us: u32)
        ensures
            *final(self) == *old(self),
            final(ops)@ == old(ops)@ + command_ops(old(self).bus, byte, settle_us),
    {
        let mut w = self.bus.write(byte, false);
        ops.append(&mut w);
        ops.push(LineOp::Delay(settle_us));
        proof {
            assert(ops@ =~= old(ops)@ + command_ops(old(self).bus, byte, settle_us));
        }
    }

    /// One instruction write with the steady-state settle of 100
    /// microseconds.
    fn write_command(&mut self, cmd: u8) -> (ops: Vec<LineOp>)
        ensures
            *final(self) == *old(self),
            ops@ == command_ops(old(self).bus, cmd, 100),
    {
        let mut ops: Vec<LineOp> = Vec::new();
        self.emit_command(&mut ops, cmd, 100);
        proof {
            assert(ops@ =~= command_ops(old(self).bus, cmd, 100));
        }
        ops
    }

    /// The seven-command 4-bit initialization; see [`init_ops_4bit`].
    fn init_4bit(&mut self) -> (ops: Vec<LineOp>)
        ensures
            *final(self) == *old(self),
            ops@ == init_ops_4bit(old(self).bus, old(self).entry_mode),
    {
        let mut ops: Vec<LineOp> = Vec::new();
        ops.push(LineOp::Delay(15000));
        self.emit_command(&mut ops, 0x33, 5000);
        self.emit_command(&mut ops, 0x32, 5000);
        self.emit_command(&mut ops, 0x28, 5000);
        self.emit_command(&mut ops, 0x0E, 5000);
        self.emit_command(&mut ops, 0x01, 5000);
        let entry = self.entry_mode.as_byte();
        self.emit_command(&mut ops, entry, 5000);
        self.emit_command(&mut ops, 0x80, 5000);
        proof {
            assert(ops@ =~= init_ops_4bit(old(self).bus, old(self).entry_mode));
        }
        ops
    }

    /// The datasheet's 8-bit initialization; see [`init_ops_8bit`].
    fn init_8bit(&mut self) -> (ops: Vec<LineOp>)
        ensures
            *final(self) == *old(self),
            ops@ == init_ops_8bit(old(self).bus, old(self).entry_mode),
    {
        let mut ops: Vec<LineOp> = Vec::new();
        ops.push(LineOp::Delay(15000));
        self.emit_command(&mut ops, 0b0011_0000, 5000);
        self.emit_command(&mut ops, 0b0011_1000, 100);
        self.emit_command(&mut ops, 0b0000_1110, 100);
        self.emit_command(&mut ops, 0b0000_0001, 100);
        self.emit_command(&mut ops, 0b0000_0111, 100);
        let entry = self.entry_mode.as_byte();
        self.emit_command(&mut ops, entry, 100);
        proof {
            assert(ops@ =~= init_ops_8bit(old(self).bus, old(self).entry_mode));
        }
        ops
    }

    /// Unshift the display and move the cursor to position 0.
    pub fn reset(&mut self) -> (ops: Vec<LineOp>)
        ensures
            *final(self) == *old(self),
            ops@ == command_ops(old(self).bus, 0b0000_0010, 100),
    {
        self.write_command(0b0000_0010)
    }

    /// Clear the entire display. The command byte is `0b0000_0001` whatever
    /// the stored modes, and the stored modes are left untouched, so two
    /// clears in a row issue the same write twice.
    pub fn clear(&mut self) -> (ops: Vec<LineOp>)
        ensures
            *final(self) == *old(self),
            ops@ == command_ops(old(self).bus, 0b0000_0001, 100),
    {
        self.write_command(0b0000_0001)
    }

    /// Replace the whole display-control state — display on/off, cursor
    /// visibility and cursor blink — in one command.
    pub fn set_display_mode(&mut self, display_mode: DisplayMode) -> (ops: Vec<LineOp>)
        ensures
            final(self).bus == old(self).bus,
            final(self).entry_mode == old(self).entry_mode,
            final(self).display_mode == display_mode,
            ops@ == command_ops(old(self).bus, display_mode.spec_as_byte(), 100),
    {
        self.display_mode = display_mode;
        let cmd_byte = self.display_mode.as_byte();
        self.write_command(cmd_byte)
    }

    /// Turn autoscroll on or off: when on, the display shifts automatically
    /// as each new character is written.
    pub fn set_autoscroll(&mut self, enabled: bool) -> (ops: Vec<LineOp>)
        ensures
            final(self).bus == old(self).bus,
            final(self).display_mode == old(self).display_mode,
            final(self).entry_mode == (EntryMode {
                shift_mode: if enabled {
                    ShiftMode::On
                } else {
                    ShiftMode::Off
                },
                ..old(self).entry_mode
            }),
            ops@ == command_ops(old(self).bus, final(self).entry_mode.spec_as_byte(), 100),
    {
        self.entry_mode.shift_mode = if enabled {
            ShiftMode::On
        } else {
            ShiftMode::Off
        };
        let cmd = self.entry_mode.as_byte();
        self.write_command(cmd)
    }

    /// Set whether the cursor is visible.
    pub fn set_cursor_visibility(&mut self, visibility: Cursor) -> (ops: Vec<LineOp>)
        ensures
            final(self).bus == old(self).bus,
            final(self).entry_mode == old(self).entry_mode,
            final(self).display_mode == (DisplayMode {
                cursor_visibility: visibility,
                ..old(self).display_mode
            }),
            ops@ == command_ops(old(self).bus, final(self).display_mode.spec_as_byte(), 100),
    {
        self.display_mode.cursor_visibility = visibility;
        let cmd = self.display_mode.as_byte();
        self.write_command(cmd)
    }

    /// Set whether the characters on the display are visible.
    pub fn set_display(&mut self, display: Display) -> (ops: Vec<LineOp>)
        ensures
            final(self).bus == old(self).bus,
            final(self).entry_mode == old(self).entry_mode,
            final(self).display_mode == (DisplayMode { display, ..old(self).display_mode }),
            ops@ == command_ops(old(self).bus, final(self).display_mode.spec_as_byte(), 100),
    {
        self.display_mode.display = display;
        let cmd = self.display_mode.as_byte();
        self.write_command(cmd)
    }

    /// Set whether the cursor blinks.
    pub fn set_cursor_blink(&mut self, blink: CursorBlink) -> (ops: Vec<LineOp>)
        ensures
            final(self).bus == old(self).bus,
            final(self).entry_mode == old(self).entry_mode,
            final(self).display_mode == (DisplayMode {
                cursor_blink: blink,
                ..old(self).display_mode
            }),
            ops@ == command_ops(old(self).bus, final(self).display_mode.spec_as_byte(), 100),
    {
        self.display_mode.cursor_blink = blink;
        let cmd = self.display_mode.as_byte();
        self.write_command(cmd)
    }

    /// Set which way the cursor moves when a new character is written.
    pub fn set_cursor_mode(&mut self, mode: CursorMode) -> (ops: Vec<LineOp>)
        ensures
            final(self).bus == old(self).bus,
            final(self).display_mode == old(self).display_mode,
            final(self).entry_mode == (EntryMode { cursor_mode: mode, ..old(self).entry_mode }),
            ops@ == command_ops(old(self).bus, final(self).entry_mode.spec_as_byte(), 100),
    {
        self.entry_mode.cursor_mode = mode;
        let cmd = self.entry_mode.as_byte();
        self.write_command(cmd)
    }

    /// Move the cursor to `position`: the command is `0b1000_0000` with the
    /// position's lower seven bits as the display-data address.
    pub fn set_cursor_pos(&mut self, position: u8) -> (ops: Vec<LineOp>)
        ensures
            *final(self) == *old(self),
            ops@ == command_ops(old(self).bus, 0b1000_0000 | (0b0111_1111 & position), 100),
    {
        let lower_7_bits = 0b0111_1111 & position;
        self.write_command(0b1000_0000 | lower_7_bits)
    }

    /// Shift just the cursor one step left or right.
    pub fn shift_cursor(&mut self, dir: Direction) -> (ops: Vec<LineOp>)
        ensures
            *final(self) == *old(self),
            ops@ == command_ops(
                old(self).bus,
                0b0001_0000 | (if dir == Direction::Right {
                    0b0000_0100u8
                } else {
                    0b0000_0000u8
                }),
                100,
            ),
    {
        let bits: u8 = match dir {
            Direction::Left => 0b0000_0000,
            Direction::Right => 0b0000_0100,
        };
        self.write_command(0b0001_0000 | bits)
    }

    /// Shift the entire display one step left or right.
    pub fn shift_display(&mut self, dir: Direction) -> (ops: Vec<LineOp>)
        ensures
            *final(self) == *old(self),
            ops@ == command_ops(
                old(self).bus,
                0b0001_1000 | (if dir == Direction::Right {
                    0b0000_0100u8
                } else {
                    0b0000_0000u8
                }),
                100,
            ),
    {
        let bits: u8 = match dir {
            Direction::Left => 0b0000_0000,
            Direction::Right => 0b0000_0100,
        };
        self.write_command(0b0001_1000 | bits)
    }

    /// Write one byte to the data register: the controller's ROM maps it to
    /// a glyph, with printable ASCII mostly mapping to itself.
    pub fn write_byte(&mut self, data: u8) -> (ops: Vec<LineOp>)
        ensures
            *final(self) == *old(self),
            ops@ == data_ops(old(self).bus, data),
    {
        let mut ops = self.bus.write(data, true);
        ops.push(LineOp::Delay(100));
        proof {
            assert(ops@ =~= data_ops(old(self).bus, data));
        }
        ops
    }

    /// Write one character, downcast to its low eight bits; characters
    /// beyond that range lose their upper bits, so callers wanting a check
    /// should hand bytes to [`HD44780::write_byte`] instead.
    pub fn write_char(&mut self, data: char) -> (ops: Vec<LineOp>)
        ensures
            *final(self) == *old(self),
            ops@ == data_ops(old(self).bus, char_byte(data)),
    {
        let code: u32 = data as u32;
        let masked: u32 = code & 0xFF;
        proof {
            assert(code & 0xFF < 256) by (bit_vector);
        }
        self.write_byte(masked as u8)
    }

    /// Write a sequence of bytes in order, one data write with its settle
    /// delay per byte.
    pub fn write_bytes(&mut self, string: &[u8]) -> (ops: Vec<LineOp>)
        ensures
            *final(self) == *old(self),
            ops@ == text_ops(old(self).bus, string@),
    {
        let mut ops: Vec<LineOp> = Vec::new();
        let mut i: usize = 0;
        while i < string.len()
            invariant
                i <= string.len(),
                *self == *old(self),
                ops@ == text_ops(old(self).bus, string@.take(i as int)),
            decreases string.len() - i,
        {
            let mut w = self.write_byte(string[i]);
            ops.append(&mut w);
            proof {
                assert(string@.take(i + 1).drop_last() =~= string@.take(i as int));
                assert(string@.take(i + 1).last() == string@[i as int]);
            }
            i = i + 1;
        }
        proof {
            assert(string@.take(string@.len() as int) =~= string@);
        }
        ops
    }

    /// Write a string byte by byte: its UTF-8 bytes pass straight through
    /// to the data register.
    pub fn write_str(&mut self, string: &str) -> (ops: Vec<LineOp>)
        ensures
            *final(self) == *old(self),
            ops@ == text_ops(old(self).bus, string.spec_bytes()),
    {
        self.write_bytes(string.as_bytes())
    }
}

} // verus!
