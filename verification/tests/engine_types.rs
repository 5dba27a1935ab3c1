use light_engine::engine::{DownloadRequest, TaskStatus, TaskStatusType};
use light_engine::task::{NetworkErrorKind, TaskError, TaskErrorKind};
use std::path::PathBuf;
use std::time::Duration;

fn request() -> DownloadRequest {
    DownloadRequest::new(PathBuf::from("out/file.bin"), "http://example.com/file.bin".to_string(), 3, Duration::from_secs(10))
}

#[test]
fn new_request_keeps_its_fields() {
    let r = request();
    assert_eq!(r.path, PathBuf::from("out/file.bin"));
    assert_eq!(r.url, "http://example.com/file.bin");
    assert_eq!(r.retries, 3);
    assert_eq!(r.timeout, Duration::from_secs(10));
}

#[test]
fn cloned_request_is_equal() {
    let r = request();
    assert_eq!(r.clone(), r);
}

#[test]
fn only_completed_and_failed_are_finished() {
    let failed = TaskStatusType::Failed(TaskError { kind: TaskErrorKind::TimedOut, origional_request: request() });
    assert!(failed.is_finished());
    assert!(TaskStatusType::Completed.is_finished());
    assert!(!TaskStatusType::Queuing.is_finished());
    assert!(!TaskStatusType::Pending.is_finished());
    assert!(!TaskStatusType::Finishing.is_finished());
    assert!(!TaskStatusType::Downloading { total: Some(10), streamed: 5, rate: 0 }.is_finished());
}

#[test]
fn cloned_status_is_equal() {
    let s = TaskStatus {
        status_type: TaskStatusType::Failed(TaskError {
            kind: TaskErrorKind::Network(NetworkErrorKind::ClientStatus),
            origional_request: request(),
        }),
        retries: 2,
    };
    let c = s.clone();
    assert_eq!(c.retries, 2);
    assert_eq!(c.status_type, s.status_type);
    let io = TaskErrorKind::IO(std::io::ErrorKind::NotFound);
    assert_eq!(io.clone(), io);
}
