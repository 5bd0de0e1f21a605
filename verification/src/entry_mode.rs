use vstd::prelude::*;

verus! {

/// Which way the cursor moves after a character is written.
#[derive(Clone, Copy, Debug, PartialEq, Eq)]
pub enum CursorMode {
    Left,
    Right,
}

/// Whether the display shifts automatically when a character is written.
#[derive(Clone, Copy, Debug, PartialEq, Eq)]
pub enum ShiftMode {
    On,
    Off,
}

/// The controller's entry-mode options: cursor direction and autoscroll.
///
/// Encodes to the entry-mode-set instruction `0b0000_01xx`, bit 1 set when
/// the cursor moves right, bit 0 set when autoscroll is on.
#[derive(Clone, Copy, Debug, PartialEq, Eq)]
pub struct EntryMode {
    pub cursor_mode: CursorMode,
    pub shift_mode: ShiftMode,
}

impl EntryMode {
    /// The command byte that reproduces these options on the chip.
    pub open spec fn spec_as_byte(&self) -> u8 {
        (4 + (if self.cursor_mode == CursorMode::Right {
            2u8
        } else {
            0u8
        }) + (if self.shift_mode == ShiftMode::On {
            1u8
        } else {
            0u8
        })) as u8
    }

    /// The mode a fresh controller starts in: cursor moving right, no
    /// autoscroll; its command byte is `0b0000_0110`.
    pub open spec fn default_spec() -> EntryMode {
        EntryMode { cursor_mode: CursorMode::Right, shift_mode: ShiftMode::Off }
    }

    /// Encode these options as the entry-mode-set command byte.
    #[verifier::when_used_as_spec(spec_as_byte)]
    pub fn as_byte(&self) -> (b: u8)
        ensures
            b == self.spec_as_byte(),
    {
        let cursor_bit: u8 = match self.cursor_mode {
            CursorMode::Right => 2,
            CursorMode::Left => 0,
        };
        let shift_bit: u8 = match self.shift_mode {
            ShiftMode::On => 1,
            ShiftMode::Off => 0,
        };
        4 + cursor_bit + shift_bit
    }
}

impl Default for EntryMode {
    /// Cursor moving right, autoscroll off.
    fn default() -> (r: EntryMode)
        ensures
            r == EntryMode::default_spec(),
    {
        EntryMode { cursor_mode: CursorMode::Right, shift_mode: ShiftMode::Off }
    }
}

} // verus!
