//! An executor for AMQP clients that runs on the actix runtime.
//!
//! [`ActixRt`] starts work on the runtime and hands back an [`ATask`], which
//! tracks one spawned task from start to completion or cancellation. Every
//! decision the executor takes on what the runtime reports is a verified
//! function here. The calls into the runtime itself are believed, not proved:
//! they are the wrappers of [`native`], and the one in [`task`] that polls a
//! task's handle.

pub mod executor;
pub mod fault;
pub mod native;
pub mod task;

pub use executor::ActixRt;
pub use executor::LapinActixRtExt;
pub use executor::LocalSpawnError;
pub use fault::Fault;
pub use task::ATask;
pub use task::TaskState;
