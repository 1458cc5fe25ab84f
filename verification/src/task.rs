//! The handle to one spawned task.
//!
//! A task is spawned, and then either completes or is cancelled. Both ends
//! are final: a handle that has reported one of them is never asked again.

use crate::fault::Fault;
use crate::native::abort_task;
use actix_rt::task::JoinError;
use actix_rt::task::JoinHandle;
use std::future::Future;
use std::pin::Pin;
use std::task::Context;
use std::task::Poll;
use vstd::prelude::*;

verus! {

/// Where a task stands, as far as its handle has been told.
#[derive(Clone, Copy, Debug, PartialEq, Eq, Structural)]
pub enum TaskState {
    /// Started, and not yet seen to end.
    Spawned,
    /// Seen to run to its end.
    Completed,
    /// Seen to be aborted or to panic.
    Canceled,
}

/// The state that an answer of the runtime takes a spawned task to.
///
/// "Not yet" leaves it spawned, a clean end completes it, and an end by abort
/// or panic counts as a cancellation.
pub open spec fn state_on(native: Poll<Result<(), JoinError>>) -> TaskState {
    match native {
        Poll::Pending => TaskState::Spawned,
        Poll::Ready(Ok(_)) => TaskState::Completed,
        Poll::Ready(Err(_)) => TaskState::Canceled,
    }
}

/// What a handle reports when a poll leaves it in `state`.
///
/// A spawned task is "not yet" done and a completed one is "ready". A
/// cancelled one is a fault, since nobody asked for that through this handle.
pub open spec fn report_in(state: TaskState) -> Result<Poll<()>, Fault> {
    match state {
        TaskState::Spawned => Ok(Poll::Pending),
        TaskState::Completed => Ok(Poll::Ready(())),
        TaskState::Canceled => Err(Fault::TaskCanceled),
    }
}

/// What a handle reports for an answer of the runtime.
pub open spec fn poll_report(native: Poll<Result<(), JoinError>>) -> Result<Poll<()>, Fault> {
    report_in(state_on(native))
}

/// What a cancellation returns once the runtime has said how the task ended:
/// its output if it ran to its end all the same, nothing otherwise.
pub open spec fn cancel_result(joined: Result<(), JoinError>) -> Option<()> {
    match joined {
        Ok(_) => Some(()),
        Err(_) => None,
    }
}

/// The owner of one task that runs on the runtime.
pub struct ATask {
    handle: JoinHandle<()>,
    state: TaskState,
}

impl ATask {
    /// Where the task stands.
    pub closed spec fn spec_state(&self) -> TaskState {
        self.state
    }

    /// The runtime's own handle to the task.
    pub closed spec fn native(&self) -> JoinHandle<()> {
        self.handle
    }

    /// Takes charge of a task that the runtime has just started.
    pub(crate) fn started(handle: JoinHandle<()>) -> (task: ATask)
        ensures
            task.state() == TaskState::Spawned,
            task.native() == handle,
    {
        ATask { handle, state: TaskState::Spawned }
    }

    /// Where the task stands.
    #[verifier::when_used_as_spec(spec_state)]
    pub fn state(&self) -> (state: TaskState)
        ensures
            state == self.state(),
    {
        self.state
    }

    /// `<JoinHandle<()> as Future>::poll`, on the task's own handle: asks the
    /// runtime once whether the task has ended.
    ///
    /// Not proved. Nothing is claimed of the answer, only that the call
    /// leaves the task's state as it was, since it is given the handle alone.
    /// The runtime panics on a handle that is polled again after it has
    /// answered `Ready`; a spawned task's handle never has.
    #[verifier::external_body]
    fn poll_handle(&mut self, cx: &mut Context<'_>) -> (native: Poll<Result<(), JoinError>>)
        requires
            old(self).state() == TaskState::Spawned,
        ensures
            final(self).state() == old(self).state(),
    {
        Pin::new(&mut self.handle).poll(cx)
    }

    /// Takes note of one answer of the runtime and says what to report for it.
    ///
    /// The handle stays spawned on "not yet" and reaches a final state on
    /// every other answer.
    pub fn settle(&mut self, native: Poll<Result<(), JoinError>>) -> (report: Result<Poll<()>, Fault>)
        requires
            old(self).state() == TaskState::Spawned,
        ensures
            final(self).state() == state_on(native),
            report == poll_report(native),
            final(self).native() == old(self).native(),
    {
        match native {
            Poll::Pending => Ok(Poll::Pending),
            Poll::Ready(joined) => match joined {
                Ok(_) => {
                    self.state = TaskState::Completed;
                    Ok(Poll::Ready(()))
                },
                Err(_) => {
                    self.state = TaskState::Canceled;
                    Err(Fault::TaskCanceled)
                },
            },
        }
    }

    /// Asks the runtime once whether the task has ended, and reports it.
    ///
    /// Which answer comes depends on the runtime alone. Whatever it is, the
    /// report and the state that the handle is left in go together: the
    /// handle stays spawned exactly when it reports "not yet", is completed
    /// exactly when it reports "ready", and is cancelled exactly when it
    /// reports the fault [`Fault::TaskCanceled`].
    ///
    /// A handle that has left the spawned state must not be polled: the
    /// runtime panics on that.
    pub fn poll(&mut self, cx: &mut Context<'_>) -> (report: Result<Poll<()>, Fault>)
        requires
            old(self).state() == TaskState::Spawned,
        ensures
            report == report_in(final(self).state()),
    {
        let native = self.poll_handle(cx);
        self.settle(native)
    }

    /// Asks the runtime to abort the task and gives up the handle.
    ///
    /// What comes back is the runtime's own handle, for the caller to await;
    /// [`ATask::cancel_outcome`] then says what the cancellation returns.
    /// Only a spawned task can be cancelled: one that has reported its end
    /// has nothing left to await.
    pub fn cancel(self) -> (handle: JoinHandle<()>)
        requires
            self.state() == TaskState::Spawned,
        ensures
            handle == self.native(),
    {
        abort_task(&self.handle);
        self.handle
    }

    /// What a cancellation returns, given how the runtime says the task
    /// ended.
    ///
    /// A task that ran to its end before the abort reached it gives its
    /// output. Any other end gives nothing, without telling a task that never
    /// ran from one that was stopped half way.
    pub fn cancel_outcome(joined: Result<(), JoinError>) -> (outcome: Option<()>)
        ensures
            outcome == cancel_result(joined),
    {
        match joined {
            Ok(_) => Some(()),
            Err(_) => None,
        }
    }
}

/// A handle reports "not yet" exactly when the runtime does, "ready" exactly
/// when the runtime saw the task run to its end, and a fault exactly when the
/// runtime saw it aborted or panicked.
pub proof fn lemma_report_follows_runtime(native: Poll<Result<(), JoinError>>)
    ensures
        poll_report(native) == Ok::<Poll<()>, Fault>(Poll::Pending) <==> native is Pending,
        poll_report(native) == Ok::<Poll<()>, Fault>(Poll::Ready(())) <==> (native matches Poll::Ready(
            joined,
        ) && joined is Ok),
        poll_report(native) == Err::<Poll<()>, Fault>(Fault::TaskCanceled) <==> (native matches Poll::Ready(
            joined,
        ) && joined is Err),
{
}

/// A task stays spawned exactly as long as the runtime answers "not yet": any
/// other answer takes it to a final state, in which its handle is not polled
/// again.
pub proof fn lemma_spawned_until_ended(native: Poll<Result<(), JoinError>>)
    ensures
        state_on(native) == TaskState::Spawned <==> native is Pending,
{
}

/// The report tells the state: no two states give the same report.
pub proof fn lemma_report_tells_state(a: TaskState, b: TaskState)
    ensures
        report_in(a) == report_in(b) <==> a == b,
{
}

/// Cancelling a task that had already run to its end returns its output.
pub proof fn lemma_cancel_of_finished_task(joined: Result<(), JoinError>)
    ensures
        joined is Ok <==> cancel_result(joined) == Some(()),
        joined is Err <==> cancel_result(joined) is None,
{
}

} // verus!
