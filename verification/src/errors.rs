//! The error taxonomy of the pipeline.
//!
//! An accelerator call that fails is fatal: the pipeline's invariants can no
//! longer be trusted.  A verification mismatch is data, not control flow: it
//! travels inside an iteration's deferred result and is surfaced by the
//! completion consumer, which then halts further consumption.

use vstd::prelude::*;
use crate::stage::Stage;

verus! {

/// Everything that can go wrong in the pipeline.
#[derive(Clone, Copy, PartialEq, Eq, Structural, Debug)]
pub enum PipelineError {
    /// An accelerator runtime call failed with a status code; fatal.
    RuntimeOpFailed { operation: Stage, code: i32 },
    /// Verification found a wrong value: element `index` held `actual`
    /// where `expected` was required, during iteration `iteration`.
    Mismatch { iteration: usize, index: usize, expected: i64, actual: i64 },
    /// A callback was registered on a signal never bound to an operation.
    SignalNotBound,
    /// A task was submitted to a queue that no longer accepts work.
    QueueClosed,
}

impl PipelineError {
    /// True for the errors that abort the run at enqueue time; a mismatch
    /// instead flows through the iteration's result to the consumer.
    pub open spec fn spec_is_fatal(self) -> bool {
        !(self is Mismatch)
    }

    /// Returns whether this error aborts the run at enqueue time.
    pub fn is_fatal(&self) -> (r: bool)
        ensures
            r == self.spec_is_fatal(),
    {
        !matches!(self, PipelineError::Mismatch { .. })
    }
}

} // verus!
