use light_engine::engine::{DownloadRequest, TaskStatus, TaskStatusType};
use light_engine::task::{Action, DownloadRun, Event, NetworkErrorKind, Stage, TaskErrorKind};
use std::path::PathBuf;
use std::time::Duration;

fn request(retries: usize) -> DownloadRequest {
    DownloadRequest::new(PathBuf::from("f.bin"), "http://host/f.bin".to_string(), retries, Duration::from_secs(5))
}

fn status(run: &DownloadRun, step_status: &Option<TaskStatus>) -> (TaskStatusType, usize) {
    let s = step_status.clone().expect("a status is published");
    assert_eq!(s.retries, run.attempt);
    (s.status_type, s.retries)
}

fn ok_response(len: Option<usize>) -> Event {
    Event::Response { status: 200, content_length: len }
}

#[test]
fn a_successful_download_goes_through_every_stage() {
    let (mut run, step) = DownloadRun::start(request(2));
    assert!(matches!(step.action, Action::AcquirePermit));
    assert_eq!(status(&run, &step.status), (TaskStatusType::Queuing, 0));

    let step = run.step(Event::Done);
    assert!(matches!(step.action, Action::CreateFile));
    assert_eq!(status(&run, &step.status), (TaskStatusType::Pending, 0));

    let step = run.step(Event::Done);
    assert!(matches!(step.action, Action::SendHead));
    assert!(step.status.is_none());

    let step = run.step(ok_response(Some(30)));
    assert!(matches!(step.action, Action::SendGet));
    assert!(step.status.is_none());

    let step = run.step(ok_response(None));
    assert!(matches!(step.action, Action::ReadChunk));
    assert_eq!(status(&run, &step.status).0, TaskStatusType::Downloading { total: Some(30), streamed: 0, rate: 0 });

    let step = run.step(Event::Chunk(Some(10)));
    assert!(matches!(step.action, Action::StoreChunk(10)));
    let step = run.step(Event::Done);
    assert_eq!(status(&run, &step.status).0, TaskStatusType::Downloading { total: Some(30), streamed: 10, rate: 0 });

    let step = run.step(Event::Chunk(Some(20)));
    assert!(matches!(step.action, Action::StoreChunk(20)));
    let step = run.step(Event::Done);
    assert_eq!(status(&run, &step.status).0, TaskStatusType::Downloading { total: Some(30), streamed: 30, rate: 0 });
    assert_eq!(run.streamed, 30);

    let step = run.step(Event::Chunk(None));
    assert!(matches!(step.action, Action::SyncFile));
    assert_eq!(status(&run, &step.status).0, TaskStatusType::Finishing);

    let step = run.step(Event::Done);
    assert!(matches!(step.action, Action::Finish(Ok(()))));
    assert_eq!(status(&run, &step.status), (TaskStatusType::Completed, 0));
    assert!(matches!(run.stage, Stage::Finished));
    assert!(!run.accepts_event(&Event::Done));
}

#[test]
fn a_failed_attempt_is_retried_from_the_queue() {
    let (mut run, _) = DownloadRun::start(request(1));
    run.step(Event::Done);
    let step = run.step(Event::IoError(std::io::ErrorKind::PermissionDenied));
    assert!(matches!(step.action, Action::AcquirePermit));
    assert_eq!(status(&run, &step.status), (TaskStatusType::Queuing, 1));
    assert_eq!(run.attempt, 1);
    assert_eq!(run.streamed, 0);
    assert!(matches!(run.stage, Stage::AwaitingPermit));
}

#[test]
fn the_task_fails_with_the_error_of_its_last_attempt() {
    let (mut run, _) = DownloadRun::start(request(1));
    run.step(Event::Done);
    run.step(Event::Done);
    let step = run.step(Event::TimedOut);
    assert!(matches!(step.action, Action::AcquirePermit));
    run.step(Event::Done);
    run.step(Event::Done);
    let step = run.step(Event::Response { status: 404, content_length: None });
    match step.action {
        Action::Finish(Err(err)) => {
            assert_eq!(err.kind, TaskErrorKind::Network(NetworkErrorKind::ClientStatus));
            assert_eq!(err.origional_request, request(1));
            let s = step.status.expect("failure is published");
            assert_eq!(s.retries, 1);
            assert_eq!(s.status_type, TaskStatusType::Failed(err));
        }
        other => panic!("unexpected action {:?}", other),
    }
}

#[test]
fn server_errors_count_as_client_status_errors() {
    let (mut run, _) = DownloadRun::start(request(1));
    run.step(Event::Done);
    run.step(Event::Done);
    run.step(Event::Response { status: 503, content_length: None });
    assert_eq!(run.attempt, 1);
    run.step(Event::Done);
    run.step(Event::Done);
    run.step(ok_response(Some(1)));
    let step = run.step(Event::Response { status: 500, content_length: None });
    match step.action {
        Action::Finish(Err(err)) => assert_eq!(err.kind, TaskErrorKind::Network(NetworkErrorKind::ClientStatus)),
        other => panic!("unexpected action {:?}", other),
    }
}

#[test]
fn network_errors_and_timeouts_while_reading_fail_the_attempt() {
    let (mut run, _) = DownloadRun::start(request(1));
    run.step(Event::Done);
    run.step(Event::Done);
    run.step(ok_response(None));
    run.step(ok_response(None));
    run.step(Event::Chunk(Some(4)));
    run.step(Event::Done);
    let step = run.step(Event::NetworkError(NetworkErrorKind::Body));
    assert!(matches!(step.action, Action::AcquirePermit));
    assert_eq!(run.attempt, 1);
    run.step(Event::Done);
    run.step(Event::Done);
    run.step(ok_response(None));
    run.step(ok_response(None));
    let step = run.step(Event::TimedOut);
    match step.action {
        Action::Finish(Err(err)) => assert_eq!(err.kind, TaskErrorKind::TimedOut),
        other => panic!("unexpected action {:?}", other),
    }
}

#[test]
fn cancellation_ends_the_task_without_a_status() {
    let (mut run, _) = DownloadRun::start(request(3));
    run.step(Event::Done);
    let step = run.step(Event::Cancelled);
    assert!(step.status.is_none());
    match step.action {
        Action::Finish(Err(err)) => {
            assert_eq!(err.kind, TaskErrorKind::Cancelled);
            assert_eq!(err.origional_request, request(3));
        }
        other => panic!("unexpected action {:?}", other),
    }
}

#[test]
fn events_are_accepted_only_where_they_answer_the_action() {
    let (mut run, _) = DownloadRun::start(request(1));
    assert!(run.accepts_event(&Event::Done));
    assert!(run.accepts_event(&Event::Cancelled));
    assert!(!run.accepts_event(&Event::Chunk(None)));
    assert!(!run.accepts_event(&Event::TimedOut));
    run.step(Event::Done);
    run.step(Event::Done);
    assert!(run.accepts_event(&ok_response(None)));
    assert!(!run.accepts_event(&Event::Done));
    run.step(ok_response(None));
    run.step(ok_response(None));
    run.step(Event::Chunk(Some(usize::MAX)));
    run.streamed = 1;
    assert!(!run.accepts_event(&Event::Done));
    assert!(run.accepts_event(&Event::IoError(std::io::ErrorKind::Other)));
}

#[test]
fn a_task_makes_at_most_retries_plus_one_attempts() {
    let (mut run, _) = DownloadRun::start(request(2));
    let mut failed_attempts = 0;
    loop {
        run.step(Event::Done);
        let step = run.step(Event::IoError(std::io::ErrorKind::Other));
        failed_attempts += 1;
        if let Action::Finish(result) = step.action {
            assert!(result.is_err());
            break;
        }
    }
    assert_eq!(failed_attempts, 3);
    assert_eq!(run.attempt, 2);
}

#[test]
fn statuses_of_an_attempt_come_in_order() {
    fn rank(t: &TaskStatusType) -> u8 {
        match t {
            TaskStatusType::Queuing => 0,
            TaskStatusType::Pending => 1,
            TaskStatusType::Downloading { .. } => 2,
            TaskStatusType::Finishing => 3,
            TaskStatusType::Completed => 4,
            TaskStatusType::Failed(_) => 5,
        }
    }
    let (mut run, first) = DownloadRun::start(request(0));
    let mut published = vec![first.status.unwrap()];
    let events = vec![
        Event::Done,
        Event::Done,
        ok_response(Some(9)),
        ok_response(Some(9)),
        Event::Chunk(Some(4)),
        Event::Done,
        Event::Chunk(Some(5)),
        Event::Done,
        Event::Chunk(None),
        Event::Done,
    ];
    for e in events {
        if let Some(s) = run.step(e).status {
            published.push(s);
        }
    }
    for w in published.windows(2) {
        let (a, b) = (&w[0].status_type, &w[1].status_type);
        match (a, b) {
            (TaskStatusType::Downloading { streamed: x, .. }, TaskStatusType::Downloading { streamed: y, .. }) => assert!(x <= y),
            _ => assert!(rank(a) < rank(b)),
        }
    }
    assert_eq!(published.len(), 7);
    assert!(published.iter().all(|s| s.retries == 0));
}
