use vstd::prelude::*;

verus! {

/// One line-level operation of a transport.
///
/// Every display operation reduces to a finite sequence of these. A host
/// performs them in order against its pins, its I2C peripheral and its delay
/// provider; the driver core only decides what the sequence is.
#[derive(Clone, Copy, Debug, PartialEq, Eq)]
pub enum LineOp {
    /// Drive the register-select line: high selects the data register,
    /// low the instruction register.
    Rs(bool),
    /// Drive the enable line high or low. The controller latches the data
    /// lines on the falling edge.
    En(bool),
    /// Drive the four data lines DB4..DB7 of a 4-bit transport; bit `i` of
    /// the value is the level of line DB(4+i), so the value is in `0..16`.
    Nibble(u8),
    /// Drive the eight data lines DB0..DB7 of an 8-bit transport to the bits
    /// of the value.
    Byte(u8),
    /// Send the four bytes as a single I2C write transaction to the port
    /// expander at the given 7-bit address, in the order `b0, b1, b2, b3`.
    I2cFrame { address: u8, b0: u8, b1: u8, b2: u8, b3: u8 },
    /// Suspend for the given number of microseconds before the next
    /// operation: the controller must not be written to while it settles.
    Delay(u32),
}

/// The level of the register-select line once `ops` have been performed,
/// or `None` if no operation of the sequence drives it.
pub open spec fn rs_after(ops: Seq<LineOp>) -> Option<bool>
    decreases ops.len(),
{
    if ops.len() == 0 {
        None
    } else {
        match ops.last() {
            LineOp::Rs(level) => Some(level),
            _ => rs_after(ops.drop_last()),
        }
    }
}

} // verus!
