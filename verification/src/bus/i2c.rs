use crate::bus::DataBus;
use crate::ops::LineOp;
use vstd::prelude::*;

verus! {

/// Bit of the expander's output byte wired to the backlight; always kept on.
pub const BACKLIGHT: u8 = 0b0000_1000;

/// Bit of the expander's output byte wired to the enable line.
pub const ENABLE: u8 = 0b0000_0100;

/// Bit of the expander's output byte wired to the register-select line.
pub const REGISTER_SELECT: u8 = 0b0000_0001;

/// The expander byte that presents the upper nibble of `byte`: register
/// select per `is_data`, backlight on, data bits 4..8 carrying
/// `byte & 0xF0`, and the enable bit per `enable`.
pub open spec fn expander_upper(byte: u8, is_data: bool, enable: bool) -> u8 {
    let base = (if is_data {
        REGISTER_SELECT
    } else {
        0u8
    }) | BACKLIGHT | (byte & 0xF0);
    if enable {
        base | ENABLE
    } else {
        base
    }
}

/// The expander byte that presents the lower nibble of `byte`, shifted up
/// into the data bits; otherwise as [`expander_upper`].
pub open spec fn expander_lower(byte: u8, is_data: bool, enable: bool) -> u8 {
    let base = (if is_data {
        REGISTER_SELECT
    } else {
        0u8
    }) | BACKLIGHT | ((byte & 0x0F) << 4);
    if enable {
        base | ENABLE
    } else {
        base
    }
}

/// The I2C transport: a port expander at a fixed 7-bit address exposes
/// register select (bit 0), enable (bit 2), backlight (bit 3) and the four
/// data lines DB4..DB7 (bits 4..8) as one output byte.
///
/// A write is a single four-byte transaction — upper nibble with enable
/// asserted, the same without enable, then likewise for the lower nibble —
/// followed by a 1 ms settle. Asserting enable in the same transmitted byte
/// as the data lines violates the chip's documented setup timing but is
/// empirically reliable with common expander hardware, and one transaction
/// keeps the bus overhead down; both are deliberate.
///
/// The outcome of the transaction is the outcome of the write: a failed
/// transaction surfaces as the driver's error rather than being discarded.
#[derive(Clone, Copy, Debug, PartialEq, Eq)]
pub struct I2CBus {
    /// The expander's 7-bit device address.
    pub address: u8,
}

impl I2CBus {
    /// An encoder for the port expander at `address`.
    pub fn new(address: u8) -> (r: I2CBus)
        ensures
            r.address == address,
    {
        I2CBus { address }
    }
}

impl DataBus for I2CBus {
    open spec fn write_ops(&self, byte: u8, is_data: bool) -> Seq<LineOp> {
        seq![
            LineOp::I2cFrame {
                address: self.address,
                b0: expander_upper(byte, is_data, true),
                b1: expander_upper(byte, is_data, false),
                b2: expander_lower(byte, is_data, true),
                b3: expander_lower(byte, is_data, false),
            },
            LineOp::Delay(1000),
        ]
    }

    fn write(&mut self, byte: u8, is_data: bool) -> (ops: Vec<LineOp>) {
        let rs: u8 = if is_data {
            REGISTER_SELECT
        } else {
            0
        };
        let upper: u8 = byte & 0xF0;
        let lower: u8 = (byte & 0x0F) << 4;
        let mut ops: Vec<LineOp> = Vec::new();
        ops.push(
            LineOp::I2cFrame {
                address: self.address,
                b0: rs | BACKLIGHT | upper | ENABLE,
                b1: rs | BACKLIGHT | upper,
                b2: rs | BACKLIGHT | lower | ENABLE,
                b3: rs | BACKLIGHT | lower,
            },
        );
        ops.push(LineOp::Delay(1000));
        proof {
            assert(rs | BACKLIGHT | upper == expander_upper(byte, is_data, false));
            assert(rs | BACKLIGHT | lower == expander_lower(byte, is_data, false));
            assert(ops@ =~= self.write_ops(byte, is_data));
        }
        ops
    }
}

/// The four bytes of the transmitted frame carry the byte and the control
/// lines exactly: the first and third equal the second and fourth with the
/// enable bit added; the second carries the upper nibble of the byte in its
/// data bits and the fourth the lower nibble shifted up; and all four have
/// the backlight bit set and the register-select bit equal to `is_data`.
pub proof fn lemma_frame_encoding(bus: I2CBus, byte: u8, is_data: bool)
    ensures
        bus.write_ops(byte, is_data) =~= seq![
            LineOp::I2cFrame {
                address: bus.address,
                b0: expander_upper(byte, is_data, true),
                b1: expander_upper(byte, is_data, false),
                b2: expander_lower(byte, is_data, true),
                b3: expander_lower(byte, is_data, false),
            },
            LineOp::Delay(1000),
        ],
        expander_upper(byte, is_data, true) == expander_upper(byte, is_data, false) | ENABLE,
        expander_lower(byte, is_data, true) == expander_lower(byte, is_data, false) | ENABLE,
        expander_upper(byte, is_data, false) & 0xF0 == byte & 0xF0,
        expander_lower(byte, is_data, false) & 0xF0 == (byte & 0x0F) << 4,
        forall|enable: bool|
            #[trigger] expander_upper(byte, is_data, enable) & BACKLIGHT == BACKLIGHT
                && #[trigger] expander_lower(byte, is_data, enable) & BACKLIGHT == BACKLIGHT,
        forall|enable: bool|
            #[trigger] expander_upper(byte, is_data, enable) & REGISTER_SELECT == (if is_data {
                REGISTER_SELECT
            } else {
                0u8
            }) && #[trigger] expander_lower(byte, is_data, enable) & REGISTER_SELECT
                == (if is_data {
                REGISTER_SELECT
            } else {
                0u8
            }),
{
    assert(expander_upper(byte, is_data, true) == expander_upper(byte, is_data, false) | ENABLE)
        by (bit_vector);
    assert(expander_lower(byte, is_data, true) == expander_lower(byte, is_data, false) | ENABLE)
        by (bit_vector);
    assert(expander_upper(byte, is_data, false) & 0xF0 == byte & 0xF0) by (bit_vector);
    assert(expander_lower(byte, is_data, false) & 0xF0 == (byte & 0x0F) << 4) by (bit_vector);
    assert forall|enable: bool|
        #[trigger] expander_upper(byte, is_data, enable) & BACKLIGHT == BACKLIGHT
            && #[trigger] expander_lower(byte, is_data, enable) & BACKLIGHT == BACKLIGHT by {
        assert(expander_upper(byte, is_data, enable) & BACKLIGHT == BACKLIGHT) by (bit_vector);
        assert(expander_lower(byte, is_data, enable) & BACKLIGHT == BACKLIGHT) by (bit_vector);
    }
    assert forall|enable: bool|
        #[trigger] expander_upper(byte, is_data, enable) & REGISTER_SELECT == (if is_data {
            REGISTER_SELECT
        } else {
            0u8
        }) && #[trigger] expander_lower(byte, is_data, enable) & REGISTER_SELECT == (if is_data {
            REGISTER_SELECT
        } else {
            0u8
        }) by {
        assert(expander_upper(byte, is_data, enable) & REGISTER_SELECT == (if is_data {
            REGISTER_SELECT
        } else {
            0u8
        })) by (bit_vector);
        assert(expander_lower(byte, is_data, enable) & REGISTER_SELECT == (if is_data {
            REGISTER_SELECT
        } else {
            0u8
        })) by (bit_vector);
    }
}

} // verus!
