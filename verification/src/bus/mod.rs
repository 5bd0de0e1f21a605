pub mod eightbit;
pub mod fourbit;
pub mod i2c;

use crate::ops::LineOp;
use vstd::prelude::*;

verus! {

/// A transport to the controller chip.
///
/// Each implementor encodes the single logical operation of the protocol —
/// latch `byte` into the register selected by `is_data` — as its own
/// sequence of line-level operations. The returned sequence is the whole
/// electrical behaviour of the write; the encoder itself is left unchanged.
pub trait DataBus: Sized {
    /// The exact line-level operations that transmit `byte`, with the
    /// register-select line driven per `is_data`.
    spec fn write_ops(&self, byte: u8, is_data: bool) -> Seq<LineOp>;

    /// Encode one write of `byte` to the instruction register
    /// (`is_data == false`) or the data register (`is_data == true`).
    fn write(&mut self, byte: u8, is_data: bool) -> (ops: Vec<LineOp>)
        ensures
            ops@ == old(self).write_ops(byte, is_data),
            *final(self) == *old(self),
    ;
}

} // verus!
