use actix_rt::task::JoinError;
use actix_rt::Runtime;
use lapin_actix_rt::ATask;
use lapin_actix_rt::ActixRt;
use lapin_actix_rt::Fault;
use lapin_actix_rt::TaskState;
use std::future::poll_fn;
use std::sync::atomic::AtomicBool;
use std::sync::atomic::AtomicU32;
use std::sync::atomic::Ordering;
use std::sync::Arc;
use std::task::Context;
use std::task::Poll;
use std::task::Waker;
use std::time::Duration;
use std::time::Instant;

/// Polls `task` until it leaves the spawned state, and counts the reports
/// that were not "not yet".
async fn finish(task: &mut ATask, ends: &AtomicU32) -> Result<(), Fault> {
    poll_fn(|cx| match task.poll(cx) {
        Ok(Poll::Pending) => Poll::Pending,
        Ok(Poll::Ready(())) => {
            ends.fetch_add(1, Ordering::SeqCst);
            Poll::Ready(Ok(()))
        }
        Err(fault) => {
            ends.fetch_add(1, Ordering::SeqCst);
            Poll::Ready(Err(fault))
        }
    })
    .await
}

/// A join error of the runtime, taken from a task that was aborted.
async fn aborted_join_error() -> JoinError {
    let handle = actix_rt::spawn(actix_rt::time::sleep(Duration::from_secs(60)));
    handle.abort();
    handle.await.unwrap_err()
}

#[test]
fn spawned_task_runs_once_and_reports_done_once() {
    let runtime = Runtime::new().unwrap();
    runtime.block_on(async {
        let counter = Arc::new(AtomicU32::new(0));
        let seen = counter.clone();
        let mut task = ActixRt.spawn(async move {
            seen.fetch_add(1, Ordering::SeqCst);
        });
        assert_eq!(task.state(), TaskState::Spawned);
        let ends = AtomicU32::new(0);
        assert_eq!(finish(&mut task, &ends).await, Ok(()));
        assert_eq!(counter.load(Ordering::SeqCst), 1);
        assert_eq!(ends.load(Ordering::SeqCst), 1);
        assert_eq!(task.state(), TaskState::Completed);
    });
}

#[test]
fn poll_before_completion_reports_pending() {
    let runtime = Runtime::new().unwrap();
    runtime.block_on(async {
        let mut task = ActixRt.spawn(actix_rt::time::sleep(Duration::from_millis(50)));
        let mut cx = Context::from_waker(Waker::noop());
        assert_eq!(task.poll(&mut cx), Ok(Poll::Pending));
        assert_eq!(task.state(), TaskState::Spawned);
        assert_eq!(task.poll(&mut cx), Ok(Poll::Pending));
        assert_eq!(task.state(), TaskState::Spawned);
        let ends = AtomicU32::new(0);
        assert_eq!(finish(&mut task, &ends).await, Ok(()));
        assert_eq!(task.state(), TaskState::Completed);
    });
}

#[test]
fn task_that_panics_is_reported_as_a_fault() {
    let runtime = Runtime::new().unwrap();
    runtime.block_on(async {
        let mut task = ActixRt.spawn(async {
            panic!("the task gives up");
        });
        let ends = AtomicU32::new(0);
        assert_eq!(finish(&mut task, &ends).await, Err(Fault::TaskCanceled));
        assert_eq!(ends.load(Ordering::SeqCst), 1);
        assert_eq!(task.state(), TaskState::Canceled);
    });
}

#[test]
fn settle_passes_pending_on() {
    let runtime = Runtime::new().unwrap();
    runtime.block_on(async {
        let mut task = ActixRt.spawn(actix_rt::time::sleep(Duration::from_secs(60)));
        assert_eq!(task.settle(Poll::Pending), Ok(Poll::Pending));
        assert_eq!(task.state(), TaskState::Spawned);
    });
}

#[test]
fn settle_completes_on_a_clean_end() {
    let runtime = Runtime::new().unwrap();
    runtime.block_on(async {
        let mut task = ActixRt.spawn(actix_rt::time::sleep(Duration::from_secs(60)));
        assert_eq!(task.settle(Poll::Ready(Ok(()))), Ok(Poll::Ready(())));
        assert_eq!(task.state(), TaskState::Completed);
    });
}

#[test]
fn settle_faults_on_an_unasked_abort() {
    let runtime = Runtime::new().unwrap();
    runtime.block_on(async {
        let error = aborted_join_error().await;
        let mut task = ActixRt.spawn(actix_rt::time::sleep(Duration::from_secs(60)));
        assert_eq!(task.settle(Poll::Ready(Err(error))), Err(Fault::TaskCanceled));
        assert_eq!(task.state(), TaskState::Canceled);
    });
}

#[test]
fn cancel_before_start_never_runs_the_body() {
    let runtime = Runtime::new().unwrap();
    runtime.block_on(async {
        let ran = Arc::new(AtomicBool::new(false));
        let flag = ran.clone();
        let task = ActixRt.spawn(async move {
            flag.store(true, Ordering::SeqCst);
        });
        let begun = Instant::now();
        let joined = task.cancel().await;
        assert!(begun.elapsed() < Duration::from_secs(5));
        assert!(matches!(&joined, Err(error) if error.is_cancelled()));
        assert_eq!(ATask::cancel_outcome(joined), None);
        actix_rt::time::sleep(Duration::from_millis(20)).await;
        assert!(!ran.load(Ordering::SeqCst));
    });
}

#[test]
fn cancel_of_long_sleep_skips_what_follows() {
    let runtime = Runtime::new().unwrap();
    runtime.block_on(async {
        let woke = Arc::new(AtomicBool::new(false));
        let flag = woke.clone();
        let task = ActixRt.spawn(async move {
            actix_rt::time::sleep(Duration::from_secs(3600)).await;
            flag.store(true, Ordering::SeqCst);
        });
        actix_rt::task::yield_now().await;
        let begun = Instant::now();
        let joined = task.cancel().await;
        assert!(begun.elapsed() < Duration::from_secs(5));
        assert!(matches!(&joined, Err(error) if error.is_cancelled()));
        assert_eq!(ATask::cancel_outcome(joined), None);
        actix_rt::time::sleep(Duration::from_millis(20)).await;
        assert!(!woke.load(Ordering::SeqCst));
    });
}

#[test]
fn cancel_of_finished_task_returns_its_output() {
    let runtime = Runtime::new().unwrap();
    runtime.block_on(async {
        let ran = Arc::new(AtomicBool::new(false));
        let flag = ran.clone();
        let task = ActixRt.spawn(async move {
            flag.store(true, Ordering::SeqCst);
        });
        actix_rt::time::sleep(Duration::from_millis(20)).await;
        assert!(ran.load(Ordering::SeqCst));
        assert_eq!(task.state(), TaskState::Spawned);
        let joined = task.cancel().await;
        assert!(joined.is_ok());
        assert_eq!(ATask::cancel_outcome(joined), Some(()));
    });
}

#[test]
fn cancel_outcome_of_each_end() {
    let runtime = Runtime::new().unwrap();
    runtime.block_on(async {
        assert_eq!(ATask::cancel_outcome(Ok(())), Some(()));
        let error = aborted_join_error().await;
        assert_eq!(ATask::cancel_outcome(Err(error)), None);
    });
}
