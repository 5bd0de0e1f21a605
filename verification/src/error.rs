use vstd::prelude::*;

verus! {

/// The single error kind of this driver.
///
/// Any electrical failure (a stuck pin, a refused bus transaction) collapses
/// to this one opaque value: the protocol carries no detail about what went
/// wrong, only that the write did not reach the controller.
#[derive(Clone, Copy, Debug, PartialEq, Eq)]
pub struct Error;

} // verus!
