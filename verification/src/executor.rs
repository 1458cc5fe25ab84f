//! The executor itself.

use crate::fault::Fault;
use crate::native::new_runtime;
use crate::native::run_to_completion;
use crate::native::spawn_blocking_task;
use crate::native::spawn_task;
use crate::task::ATask;
use crate::task::TaskState;
use actix_rt::task::JoinError;
use actix_rt::task::JoinHandle;
use actix_rt::Runtime;
use std::future::Future;
use vstd::prelude::*;

verus! {

/// Installs the actix runtime as the executor of a connection's settings.
pub trait LapinActixRtExt {
    /// The same settings, with [`ActixRt`] as their executor.
    fn with_actix_rt(self) -> Self where Self: Sized;
}

/// The refusal to run work on the calling thread only. It holds the work,
/// untouched, so that the caller can run it some other way.
pub struct LocalSpawnError<W>(pub W);

/// What blocking on `work` comes to, given what the machine said when it was
/// asked for a runtime.
pub open spec fn block_on_result(created: Result<Runtime, std::io::Error>) -> Result<(), Fault> {
    match created {
        Ok(_) => Ok(()),
        Err(_) => Err(Fault::RuntimeUnavailable),
    }
}

/// What a blocking call comes to, given how the runtime says its task ended.
pub open spec fn blocking_result(joined: Result<(), JoinError>) -> Result<(), Fault> {
    match joined {
        Ok(_) => Ok(()),
        Err(_) => Err(Fault::BlockingTaskFailed),
    }
}

/// An executor that runs everything on the actix runtime. It holds nothing.
#[derive(Clone, Copy, Debug)]
pub struct ActixRt;

impl Default for ActixRt {
    fn default() -> (executor: Self)
        ensures
            executor == ActixRt,
    {
        ActixRt
    }
}

impl ActixRt {
    /// Starts `work` on the runtime and returns the handle to it, without
    /// waiting for anything.
    ///
    /// Must be called on a thread that runs an actix system.
    pub fn spawn<F>(&self, work: F) -> (task: ATask) where
        F: Future<Output = ()> + Send + 'static,
        ensures
            task.state() == TaskState::Spawned,
    {
        ATask::started(spawn_task(work))
    }

    /// Refuses `work`, which may be tied to the calling thread: the runtime
    /// has no place to run such work from here. The work comes back as it
    /// went in, and nothing of it has run.
    pub fn spawn_local<F>(&self, work: F) -> (refusal: Result<ATask, LocalSpawnError<F>>) where
        F: Future<Output = ()>,
        ensures
            refusal == Err::<ATask, LocalSpawnError<F>>(LocalSpawnError(work)),
    {
        Err(LocalSpawnError(work))
    }

    /// Hands `work` to the runtime's pool of blocking threads.
    ///
    /// What comes back is the runtime's own handle, for the caller to await;
    /// [`ActixRt::blocking_outcome`] then says what the call comes to. Must be
    /// called on a thread inside a runtime.
    pub fn spawn_blocking<F>(&self, work: F) -> JoinHandle<()> where
        F: FnOnce() + Send + 'static,
    {
        spawn_blocking_task(work)
    }

    /// What a blocking call comes to, given how the runtime says its task
    /// ended: done if the callable returned, a fault if the pool failed to
    /// run it to its end.
    pub fn blocking_outcome(joined: Result<(), JoinError>) -> (outcome: Result<(), Fault>)
        ensures
            outcome == blocking_result(joined),
    {
        match joined {
            Ok(_) => Ok(()),
            Err(_) => Err(Fault::BlockingTaskFailed),
        }
    }

    /// Runs `work` to completion on `created`, if that is a runtime, and
    /// blocks the calling thread meanwhile. Without a runtime `work` is
    /// dropped unrun, and the result is a fault.
    ///
    /// Must be called on a thread outside any runtime.
    pub fn block_on_runtime<F>(
        created: Result<Runtime, std::io::Error>,
        work: F,
    ) -> (outcome: Result<(), Fault>) where
        F: Future<Output = ()>,
        ensures
            outcome == block_on_result(created),
    {
        match created {
            Ok(runtime) => {
                run_to_completion(&runtime, work);
                Ok(())
            },
            Err(_) => Err(Fault::RuntimeUnavailable),
        }
    }

    /// Runs `work` to completion on a runtime set up for this one call, and
    /// blocks the calling thread meanwhile.
    ///
    /// Whether the machine grants the runtime is not known beforehand; the
    /// only fault there can be is that it did not. Must be called on a thread
    /// outside any runtime.
    pub fn block_on<F>(&self, work: F) -> (outcome: Result<(), Fault>) where
        F: Future<Output = ()>,
        ensures
            outcome is Err ==> outcome == Err::<(), Fault>(Fault::RuntimeUnavailable),
    {
        Self::block_on_runtime(new_runtime(), work)
    }
}

} // verus!
