use crate::bus::DataBus;
use crate::ops::{rs_after, LineOp};
use vstd::prelude::*;

verus! {

/// The 4-bit parallel transport: four data lines wired to the controller's
/// DB4..DB7 pins, plus register select and enable.
///
/// A byte travels as two nibble presentations on the same four lines, upper
/// nibble first, each latched by its own enable pulse. The two pulse edges
/// are separated by a 2 ms delay — far above the chip's minimum pulse width,
/// kept as a conservative margin for timing-compatibility.
///
/// Register select is handled asymmetrically: it is driven per `is_data`
/// before the upper nibble, but explicitly driven low again only at the end
/// of a data write. After a command write it was already low and is left
/// low, which callers rely on.
#[derive(Clone, Copy, Debug, PartialEq, Eq)]
pub struct FourBitBus;

impl FourBitBus {
    /// A fresh 4-bit encoder.
    pub fn new() -> (r: FourBitBus) {
        FourBitBus
    }

    /// The levels of the four data lines that present the upper nibble
    /// (bits 4..8) of `data`.
    fn write_upper_nibble(&self, data: u8) -> (op: LineOp)
        ensures
            op == LineOp::Nibble(data >> 4),
    {
        let db4: bool = (0b0001_0000 & data) != 0;
        let db5: bool = (0b0010_0000 & data) != 0;
        let db6: bool = (0b0100_0000 & data) != 0;
        let db7: bool = (0b1000_0000 & data) != 0;
        let nibble: u8 = (if db4 {
            1u8
        } else {
            0u8
        }) | (if db5 {
            2u8
        } else {
            0u8
        }) | (if db6 {
            4u8
        } else {
            0u8
        }) | (if db7 {
            8u8
        } else {
            0u8
        });
        proof {
            assert(((if (0b0001_0000u8 & data) != 0 {
                1u8
            } else {
                0u8
            }) | (if (0b0010_0000u8 & data) != 0 {
                2u8
            } else {
                0u8
            }) | (if (0b0100_0000u8 & data) != 0 {
                4u8
            } else {
                0u8
            }) | (if (0b1000_0000u8 & data) != 0 {
                8u8
            } else {
                0u8
            })) == data >> 4) by (bit_vector);
        }
        LineOp::Nibble(nibble)
    }

    /// The levels of the four data lines that present the lower nibble
    /// (bits 0..4) of `data`.
    fn write_lower_nibble(&self, data: u8) -> (op: LineOp)
        ensures
            op == LineOp::Nibble(data & 0x0F),
    {
        let db0: bool = (0b0000_0001 & data) != 0;
        let db1: bool = (0b0000_0010 & data) != 0;
        let db2: bool = (0b0000_0100 & data) != 0;
        let db3: bool = (0b0000_1000 & data) != 0;
        let nibble: u8 = (if db0 {
            1u8
        } else {
            0u8
        }) | (if db1 {
            2u8
        } else {
            0u8
        }) | (if db2 {
            4u8
        } else {
            0u8
        }) | (if db3 {
            8u8
        } else {
            0u8
        });
        proof {
            assert(((if (0b0000_0001u8 & data) != 0 {
                1u8
            } else {
                0u8
            }) | (if (0b0000_0010u8 & data) != 0 {
                2u8
            } else {
                0u8
            }) | (if (0b0000_0100u8 & data) != 0 {
                4u8
            } else {
                0u8
            }) | (if (0b0000_1000u8 & data) != 0 {
                8u8
            } else {
                0u8
            })) == data & 0x0F) by (bit_vector);
        }
        LineOp::Nibble(nibble)
    }
}

impl DataBus for FourBitBus {
    open spec fn write_ops(&self, byte: u8, is_data: bool) -> Seq<LineOp> {
        let base = seq![
            LineOp::Rs(is_data),
            LineOp::Nibble(byte >> 4),
            LineOp::En(true),
            LineOp::Delay(2000),
            LineOp::En(false),
            LineOp::Nibble(byte & 0x0F),
            LineOp::En(true),
            LineOp::Delay(2000),
            LineOp::En(false),
        ];
        if is_data {
            base.push(LineOp::Rs(false))
        } else {
            base
        }
    }

    fn write(&mut self, byte: u8, is_data: bool) -> (ops: Vec<LineOp>) {
        let mut ops: Vec<LineOp> = Vec::new();
        ops.push(LineOp::Rs(is_data));
        let upper = self.write_upper_nibble(byte);
        ops.push(upper);
        ops.push(LineOp::En(true));
        ops.push(LineOp::Delay(2000));
        ops.push(LineOp::En(false));
        let lower = self.write_lower_nibble(byte);
        ops.push(lower);
        ops.push(LineOp::En(true));
        ops.push(LineOp::Delay(2000));
        ops.push(LineOp::En(false));
        if is_data {
            ops.push(LineOp::Rs(false));
        }
        proof {
            assert(ops@ =~= self.write_ops(byte, is_data));
        }
        ops
    }
}

/// The two nibble presentations of a 4-bit write, concatenated upper then
/// lower, reconstruct the transmitted byte exactly: for every byte and
/// register-select flag, the sequence presents `byte >> 4` then
/// `byte & 0x0F`, and those two nibbles compose back to `byte`.
pub proof fn lemma_nibbles_reconstruct_byte(bus: FourBitBus, byte: u8, is_data: bool)
    ensures
        bus.write_ops(byte, is_data)[1] == LineOp::Nibble(byte >> 4),
        bus.write_ops(byte, is_data)[5] == LineOp::Nibble(byte & 0x0F),
        ((byte >> 4) << 4) | (byte & 0x0F) == byte,
{
    assert(((byte >> 4) << 4) | (byte & 0x0F) == byte) by (bit_vector);
}

/// Register-select asymmetry of the 4-bit transport: whatever the write,
/// the sequence leaves the register-select line low at return; a data write
/// drives it high first and only drives it back low as its final operation,
/// while a command write drives it low up front and never raises it.
pub proof fn lemma_rs_asymmetry(bus: FourBitBus, byte: u8)
    ensures
        rs_after(bus.write_ops(byte, false)) == Some(false),
        rs_after(bus.write_ops(byte, true)) == Some(false),
        bus.write_ops(byte, false)[0] == LineOp::Rs(false),
        bus.write_ops(byte, true)[0] == LineOp::Rs(true),
{
    let cmd = bus.write_ops(byte, false);
    let data = bus.write_ops(byte, true);
    reveal_with_fuel(rs_after, 12);
    assert(rs_after(data) == Some(false));
    assert(cmd.drop_last().drop_last().drop_last().drop_last().drop_last().drop_last().drop_last().drop_last()
        =~= seq![LineOp::Rs(false)]);
    assert(rs_after(cmd) == Some(false));
}

} // verus!
