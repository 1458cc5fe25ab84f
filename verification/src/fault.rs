//! The faults that the executor cannot recover from.

use vstd::prelude::*;

verus! {

/// A condition that the executor treats as fatal.
///
/// None of the executor's operations has an error channel for these, so the
/// caller that receives one is expected to stop with [`Fault::message`].
#[derive(Clone, Copy, Debug, PartialEq, Eq, Structural)]
pub enum Fault {
    /// The machine refused to set up a fresh runtime to block on.
    RuntimeUnavailable,
    /// A blocking callable was aborted or panicked before it returned.
    BlockingTaskFailed,
    /// A spawned task was aborted or panicked although nobody cancelled it
    /// through its handle.
    TaskCanceled,
}

impl Fault {
    /// The text that goes with each fault.
    pub open spec fn message_text(self) -> Seq<char> {
        match self {
            Fault::RuntimeUnavailable => "failed to create runtime"@,
            Fault::BlockingTaskFailed => "blocking task failed"@,
            Fault::TaskCanceled => "task has been canceled"@,
        }
    }

    /// The message to stop with.
    pub fn message(&self) -> (text: &'static str)
        ensures
            text@ == self.message_text(),
    {
        match self {
            Fault::RuntimeUnavailable => "failed to create runtime",
            Fault::BlockingTaskFailed => "blocking task failed",
            Fault::TaskCanceled => "task has been canceled",
        }
    }
}

} // verus!
