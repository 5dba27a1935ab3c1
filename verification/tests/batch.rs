use light_engine::engine::DownloadRequest;
use light_engine::task::{TaskError, TaskErrorKind};
use light_engine::task_handle::{BatchErrors, HandleState};
use std::path::PathBuf;
use std::time::Duration;

fn err(kind: TaskErrorKind) -> TaskError {
    TaskError {
        kind,
        origional_request: DownloadRequest::new(PathBuf::from("x"), "http://h/x".to_string(), 1, Duration::from_secs(1)),
    }
}

#[test]
fn a_batch_without_errors_succeeds() {
    let mut b = BatchErrors::new();
    let r = b.poll_round(vec![HandleState::Ready(Ok(())), HandleState::Finished, HandleState::Ready(Ok(()))]);
    assert_eq!(r, Some(Ok(())));
}

#[test]
fn a_running_task_keeps_the_batch_pending_and_errors_are_kept() {
    let mut b = BatchErrors::new();
    let r = b.poll_round(vec![HandleState::Ready(Err(err(TaskErrorKind::TimedOut))), HandleState::Pending]);
    assert_eq!(r, None);
    let r = b.poll_round(vec![HandleState::Finished, HandleState::Ready(Err(err(TaskErrorKind::Cancelled)))]);
    assert_eq!(r, Some(Err(vec![err(TaskErrorKind::TimedOut), err(TaskErrorKind::Cancelled)])));
}

#[test]
fn tasks_after_a_running_one_are_not_looked_at() {
    let mut b = BatchErrors::new();
    let r = b.poll_round(vec![HandleState::Pending, HandleState::Ready(Err(err(TaskErrorKind::TimedOut)))]);
    assert_eq!(r, None);
    let r = b.poll_round(vec![HandleState::Ready(Ok(()))]);
    assert_eq!(r, Some(Ok(())));
}
