use vstd::prelude::*;

verus! {

/// Whether the characters on the display are visible.
#[derive(Clone, Copy, Debug, PartialEq, Eq)]
pub enum Display {
    On,
    Off,
}

/// Whether the cursor is visible.
#[derive(Clone, Copy, Debug, PartialEq, Eq)]
pub enum Cursor {
    Visible,
    Invisible,
}

/// Whether the cursor blinks.
#[derive(Clone, Copy, Debug, PartialEq, Eq)]
pub enum CursorBlink {
    On,
    Off,
}

/// The controller's display-control options: display on/off, cursor
/// visibility and cursor blink.
///
/// Encodes to the display-control instruction `0b0000_1xyz`, with bit 2 set
/// when the display is on, bit 1 when the cursor is visible and bit 0 when
/// the cursor blinks.
#[derive(Clone, Copy, Debug, PartialEq, Eq)]
pub struct DisplayMode {
    pub display: Display,
    pub cursor_visibility: Cursor,
    pub cursor_blink: CursorBlink,
}

impl DisplayMode {
    /// The command byte that reproduces these options on the chip.
    pub open spec fn spec_as_byte(&self) -> u8 {
        (8 + (if self.display == Display::On {
            4u8
        } else {
            0u8
        }) + (if self.cursor_visibility == Cursor::Visible {
            2u8
        } else {
            0u8
        }) + (if self.cursor_blink == CursorBlink::On {
            1u8
        } else {
            0u8
        })) as u8
    }

    /// The options a fresh controller starts in: display on, cursor visible,
    /// no blinking; its command byte is `0b0000_1110`, the literal that the
    /// initialization sequences write.
    pub open spec fn default_spec() -> DisplayMode {
        DisplayMode {
            display: Display::On,
            cursor_visibility: Cursor::Visible,
            cursor_blink: CursorBlink::Off,
        }
    }

    /// Encode these options as the display-control command byte.
    #[verifier::when_used_as_spec(spec_as_byte)]
    pub fn as_byte(&self) -> (b: u8)
        ensures
            b == self.spec_as_byte(),
    {
        let display_bit: u8 = match self.display {
            Display::On => 4,
            Display::Off => 0,
        };
        let cursor_bit: u8 = match self.cursor_visibility {
            Cursor::Visible => 2,
            Cursor::Invisible => 0,
        };
        let blink_bit: u8 = match self.cursor_blink {
            CursorBlink::On => 1,
            CursorBlink::Off => 0,
        };
        8 + display_bit + cursor_bit + blink_bit
    }
}

impl Default for DisplayMode {
    /// Display on, cursor visible, blink off.
    fn default() -> (r: DisplayMode)
        ensures
            r == DisplayMode::default_spec(),
    {
        DisplayMode {
            display: Display::On,
            cursor_visibility: Cursor::Visible,
            cursor_blink: CursorBlink::Off,
        }
    }
}

} // verus!
