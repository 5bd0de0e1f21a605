use crate::bus::DataBus;
use crate::ops::LineOp;
use vstd::prelude::*;

verus! {

/// The 8-bit parallel transport: eight data lines wired to DB0..DB7, plus
/// register select and enable.
///
/// A byte travels in one piece: register select is driven per `is_data`,
/// all eight data lines present the byte at once, and a single enable pulse
/// — high, a 2 ms settle, then low — latches it. One pulse per byte, unlike
/// the nibble transports.
#[derive(Clone, Copy, Debug, PartialEq, Eq)]
pub struct EightBitBus;

impl EightBitBus {
    /// A fresh 8-bit encoder.
    pub fn new() -> (r: EightBitBus) {
        EightBitBus
    }
}

impl DataBus for EightBitBus {
    open spec fn write_ops(&self, byte: u8, is_data: bool) -> Seq<LineOp> {
        seq![
            LineOp::Rs(is_data),
            LineOp::Byte(byte),
            LineOp::En(true),
            LineOp::Delay(2000),
            LineOp::En(false),
        ]
    }

    fn write(&mut self, byte: u8, is_data: bool) -> (ops: Vec<LineOp>) {
        let mut ops: Vec<LineOp> = Vec::new();
        ops.push(LineOp::Rs(is_data));
        ops.push(LineOp::Byte(byte));
        ops.push(LineOp::En(true));
        ops.push(LineOp::Delay(2000));
        ops.push(LineOp::En(false));
        proof {
            assert(ops@ =~= self.write_ops(byte, is_data));
        }
        ops
    }
}

} // verus!
