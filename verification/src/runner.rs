use crate::error::Error;
use crate::ops::LineOp;
use vstd::prelude::*;

verus! {

/// Hands the operations of one plan out one at a time, in order, and stops
/// for good at the first reported failure.
///
/// The host performs each operation it is handed and reports the outcome
/// with the next request. Once a failure is reported — or once the plan is
/// exhausted — nothing further is handed out, so the operations performed
/// are always a prefix of the plan, cut at the first failure.
pub struct PlanRunner {
    pub ops: Vec<LineOp>,
    pub handed: usize,
    pub failed: bool,
}

impl PlanRunner {
    /// A runner at the start of `ops`, with nothing handed out and no
    /// failure seen.
    pub fn new(ops: Vec<LineOp>) -> (r: PlanRunner)
        ensures
            r.ops@ == ops@,
            r.handed == 0,
            !r.failed,
    {
        PlanRunner { ops, handed: 0, failed: false }
    }

    /// The next operation to perform, given whether the previous one
    /// succeeded. A reported failure latches: from then on, and likewise
    /// past the end of the plan, nothing more is handed out.
    pub fn next(&mut self, prev_ok: bool) -> (op: Option<LineOp>)
        ensures
            final(self).ops@ == old(self).ops@,
            (!prev_ok || old(self).failed) ==> final(self).failed && final(self).handed == old(
                self,
            ).handed && op is None,
            (prev_ok && !old(self).failed) ==> final(self).failed == old(self).failed,
            (prev_ok && !old(self).failed && old(self).handed < old(self).ops@.len()) ==> op
                == Some(old(self).ops@[old(self).handed as int]) && final(self).handed == old(
                self,
            ).handed + 1,
            (prev_ok && !old(self).failed && old(self).handed >= old(self).ops@.len()) ==> op
                is None && final(self).handed == old(self).handed,
    {
        if !prev_ok || self.failed {
            self.failed = true;
            None
        } else if self.handed < self.ops.len() {
            let op = self.ops[self.handed];
            self.handed = self.handed + 1;
            Some(op)
        } else {
            None
        }
    }

    /// Whether the whole plan was performed: `Ok` exactly when every
    /// operation was handed out and no failure was reported.
    pub fn finish(&self) -> (r: Result<(), Error>)
        ensures
            r is Ok <==> (!self.failed && self.handed == self.ops@.len()),
    {
        if self.failed || self.handed != self.ops.len() {
            Err(Error)
        } else {
            Ok(())
        }
    }
}

} // verus!
