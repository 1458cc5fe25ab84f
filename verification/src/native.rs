//! The runtime as the executor sees it: its types, and one wrapper for each
//! of its functions that the executor calls.
//!
//! Nothing in this file is proved. The types are opaque, except `Poll`, whose
//! two variants are declared as they are. The wrappers claim nothing of what
//! the runtime hands back, since all of it depends on how far the tasks have
//! run; the functions that call them decide on every possible answer. The
//! wrapper that polls a task's handle stands with the task, whose state says
//! when the handle may be polled.

use actix_rt::task::JoinError;
use actix_rt::task::JoinHandle;
use actix_rt::Runtime;
use std::future::Future;
use std::task::Context;
use std::task::Poll;
use vstd::prelude::*;

verus! {

/// `actix_rt::task::JoinHandle`: the runtime's owned handle to one task.
#[verifier::external_type_specification]
#[verifier::external_body]
#[verifier::reject_recursive_types(T)]
pub struct ExJoinHandle<T>(JoinHandle<T>);

/// `actix_rt::task::JoinError`: why a task ended without an output, which is
/// that it was aborted or that it panicked.
#[verifier::external_type_specification]
#[verifier::external_body]
pub struct ExJoinError(JoinError);

/// `actix_rt::Runtime`: a single-threaded runtime of its own.
#[verifier::external_type_specification]
#[verifier::external_body]
pub struct ExRuntime(Runtime);

/// `std::task::Context`: what a poll is given to arrange its wake-up.
#[verifier::external_type_specification]
#[verifier::external_body]
pub struct ExContext<'a>(Context<'a>);

/// `std::io::Error`: why the machine refused a new runtime.
#[verifier::external_type_specification]
#[verifier::external_body]
pub struct ExIoError(std::io::Error);

/// `std::task::Poll`, with its variants `Ready` and `Pending`.
#[verifier::external_type_specification]
pub struct ExPoll<T>(Poll<T>);

/// `actix_rt::spawn`: starts `work` as a new task on the current thread's
/// runtime and returns the handle to it.
///
/// Nothing is claimed of the handle. The runtime panics where no actix system
/// is running on the calling thread; that depends on the caller's
/// surroundings, not on `work`.
#[verifier::external_body]
pub(crate) fn spawn_task<F>(work: F) -> JoinHandle<()> where
    F: Future<Output = ()> + 'static,
{
    actix_rt::spawn(work)
}

/// `actix_rt::task::spawn_blocking`: hands `work` to the runtime's pool of
/// blocking threads and returns the handle to it.
///
/// Nothing is claimed of the handle. The runtime panics where the calling
/// thread is outside any runtime.
#[verifier::external_body]
pub(crate) fn spawn_blocking_task<F>(work: F) -> JoinHandle<()> where
    F: FnOnce() + Send + 'static,
{
    actix_rt::task::spawn_blocking(work)
}

/// `JoinHandle::abort`: asks the runtime to stop the task at its next
/// suspension point. It returns at once and never fails, whether or not the
/// task has already ended.
#[verifier::external_body]
pub(crate) fn abort_task(handle: &JoinHandle<()>) {
    handle.abort()
}

/// `actix_rt::Runtime::new`: sets up a fresh single-threaded runtime.
///
/// Whether the machine grants one is not for this crate to say.
#[verifier::external_body]
pub(crate) fn new_runtime() -> Result<Runtime, std::io::Error> {
    Runtime::new()
}

/// `actix_rt::Runtime::block_on`: runs `work` on `runtime` and blocks the
/// calling thread until it has completed.
///
/// It returns only once `work` has completed. The runtime panics where the
/// calling thread is already inside a runtime.
#[verifier::external_body]
pub(crate) fn run_to_completion<F>(runtime: &Runtime, work: F) where
    F: Future<Output = ()>,
{
    runtime.block_on(work)
}

} // verus!
