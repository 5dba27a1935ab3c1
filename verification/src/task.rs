use std::io::ErrorKind;
use vstd::prelude::*;

use crate::engine::{DownloadRequest, TaskStatus, TaskStatusType};

verus! {

/// `std::io::ErrorKind`, carried in IO errors as an opaque value.
#[verifier::external_type_specification]
#[verifier::external_body]
pub struct ExIoErrorKind(ErrorKind);

/// What a download task ends with.
pub type DownloadTaskResult = Result<(), TaskError>;

/// Why a download task failed, with the request it was running.
#[derive(Debug, PartialEq)]
pub struct TaskError {
    pub kind: TaskErrorKind,
    pub origional_request: DownloadRequest,
}

impl Clone for TaskError {
    fn clone(&self) -> (r: Self)
        ensures
            r == *self,
    {
        TaskError { kind: self.kind.clone(), origional_request: self.origional_request.clone() }
    }
}

#[derive(Debug, PartialEq)]
pub enum TaskErrorKind {
    Cancelled,
    IO(ErrorKind),
    Network(NetworkErrorKind),
    TimedOut,
}

impl Clone for TaskErrorKind {
    fn clone(&self) -> (r: Self)
        ensures
            r == *self,
    {
        match self {
            TaskErrorKind::Cancelled => TaskErrorKind::Cancelled,
            TaskErrorKind::IO(k) => TaskErrorKind::IO(*k),
            TaskErrorKind::Network(n) => TaskErrorKind::Network(n.clone()),
            TaskErrorKind::TimedOut => TaskErrorKind::TimedOut,
        }
    }
}

#[derive(Debug, PartialEq, Eq, PartialOrd, Ord)]
pub enum NetworkErrorKind {
    Builder,
    Request,
    Body,
    Connect,
    Decode,
    Redirect,
    Upgrade,
    ServerStatus,
    ClientStatus,
    Timeout,
    Unknown,
}

impl Clone for NetworkErrorKind {
    fn clone(&self) -> (r: Self)
        ensures
            r == *self,
    {
        match self {
            NetworkErrorKind::Builder => NetworkErrorKind::Builder,
            NetworkErrorKind::Request => NetworkErrorKind::Request,
            NetworkErrorKind::Body => NetworkErrorKind::Body,
            NetworkErrorKind::Connect => NetworkErrorKind::Connect,
            NetworkErrorKind::Decode => NetworkErrorKind::Decode,
            NetworkErrorKind::Redirect => NetworkErrorKind::Redirect,
            NetworkErrorKind::Upgrade => NetworkErrorKind::Upgrade,
            NetworkErrorKind::ServerStatus => NetworkErrorKind::ServerStatus,
            NetworkErrorKind::ClientStatus => NetworkErrorKind::ClientStatus,
            NetworkErrorKind::Timeout => NetworkErrorKind::Timeout,
            NetworkErrorKind::Unknown => NetworkErrorKind::Unknown,
        }
    }
}


/// `reqwest::Error`, the error of the HTTP client, carried as an opaque value.
#[verifier::external_type_specification]
#[verifier::external_body]
pub struct ExReqwestError(reqwest::Error);

/// What `reqwest::Error::is_body` answers for an error.
pub uninterp spec fn body_error(e: reqwest::Error) -> bool;

/// What `reqwest::Error::is_builder` answers for an error.
pub uninterp spec fn builder_error(e: reqwest::Error) -> bool;

/// What `reqwest::Error::is_connect` answers for an error.
pub uninterp spec fn connect_error(e: reqwest::Error) -> bool;

/// What `reqwest::Error::is_decode` answers for an error.
pub uninterp spec fn decode_error(e: reqwest::Error) -> bool;

/// What `reqwest::Error::is_redirect` answers for an error.
pub uninterp spec fn redirect_error(e: reqwest::Error) -> bool;

/// What `reqwest::Error::is_request` answers for an error.
pub uninterp spec fn request_error(e: reqwest::Error) -> bool;

/// Calls `reqwest::Error::is_body`, which tests the error's kind: its answer
/// depends on the error alone.
#[verifier::external_body]
fn error_is_body(err: &reqwest::Error) -> (r: bool)
    ensures
        r == body_error(*err),
{
    err.is_body()
}

/// Calls `reqwest::Error::is_builder`, which tests the error's kind: its
/// answer depends on the error alone.
#[verifier::external_body]
fn error_is_builder(err: &reqwest::Error) -> (r: bool)
    ensures
        r == builder_error(*err),
{
    err.is_builder()
}

/// Calls `reqwest::Error::is_connect`, which walks the error's source chain:
/// its answer depends on the error alone.
#[verifier::external_body]
fn error_is_connect(err: &reqwest::Error) -> (r: bool)
    ensures
        r == connect_error(*err),
{
    err.is_connect()
}

/// Calls `reqwest::Error::is_decode`, which tests the error's kind: its
/// answer depends on the error alone.
#[verifier::external_body]
fn error_is_decode(err: &reqwest::Error) -> (r: bool)
    ensures
        r == decode_error(*err),
{
    err.is_decode()
}

/// Calls `reqwest::Error::is_redirect`, which tests the error's kind: its
/// answer depends on the error alone.
#[verifier::external_body]
fn error_is_redirect(err: &reqwest::Error) -> (r: bool)
    ensures
        r == redirect_error(*err),
{
    err.is_redirect()
}

/// Calls `reqwest::Error::is_request`, which tests the error's kind: its
/// answer depends on the error alone.
#[verifier::external_body]
fn error_is_request(err: &reqwest::Error) -> (r: bool)
    ensures
        r == request_error(*err),
{
    err.is_request()
}

/// The kind of a client error, from what the client says of it, tested in
/// this order: body, builder, connect, decode, redirect, request.
pub open spec fn network_kind_of(
    is_body: bool,
    is_builder: bool,
    is_connect: bool,
    is_decode: bool,
    is_redirect: bool,
    is_request: bool,
) -> NetworkErrorKind {
    if is_body {
        NetworkErrorKind::Body
    } else if is_builder {
        NetworkErrorKind::Builder
    } else if is_connect {
        NetworkErrorKind::Connect
    } else if is_decode {
        NetworkErrorKind::Decode
    } else if is_redirect {
        NetworkErrorKind::Redirect
    } else if is_request {
        NetworkErrorKind::Request
    } else {
        NetworkErrorKind::Unknown
    }
}

/// Classifies a client error from the answers of its predicates.
pub fn classify_network_error(
    is_body: bool,
    is_builder: bool,
    is_connect: bool,
    is_decode: bool,
    is_redirect: bool,
    is_request: bool,
) -> (r: NetworkErrorKind)
    ensures
        r == network_kind_of(is_body, is_builder, is_connect, is_decode, is_redirect, is_request),
{
    if is_body {
        NetworkErrorKind::Body
    } else if is_builder {
        NetworkErrorKind::Builder
    } else if is_connect {
        NetworkErrorKind::Connect
    } else if is_decode {
        NetworkErrorKind::Decode
    } else if is_redirect {
        NetworkErrorKind::Redirect
    } else if is_request {
        NetworkErrorKind::Request
    } else {
        NetworkErrorKind::Unknown
    }
}

/// The kind of a client error: its six predicates are asked, and their
/// answers classified by `classify_network_error`.
pub fn get_network_error_kind(err: &reqwest::Error) -> (r: NetworkErrorKind)
    ensures
        r == network_kind_of(
            body_error(*err),
            builder_error(*err),
            connect_error(*err),
            decode_error(*err),
            redirect_error(*err),
            request_error(*err),
        ),
{
    let is_body = error_is_body(err);
    let is_builder = error_is_builder(err);
    let is_connect = error_is_connect(err);
    let is_decode = error_is_decode(err);
    let is_redirect = error_is_redirect(err);
    let is_request = error_is_request(err);
    classify_network_error(is_body, is_builder, is_connect, is_decode, is_redirect, is_request)
}

/// Whether an HTTP status code is a success (2xx).
pub open spec fn is_success(status: u16) -> bool {
    200 <= status && status <= 299
}

/// Whether an HTTP status code is a success (2xx).
pub fn status_is_success(status: u16) -> (r: bool)
    ensures
        r == is_success(status),
{
    200 <= status && status <= 299
}

/// What the driver of a task must do next.
#[derive(Debug)]
pub enum Action {
    /// Give back the concurrency permit of the previous attempt, if one is
    /// held, and wait for a new one.
    AcquirePermit,
    /// Create (or truncate) the destination file.
    CreateFile,
    /// Send a HEAD request for the URL, bounded by the request's timeout.
    SendHead,
    /// Send a GET request for the URL, bounded by the request's timeout.
    SendGet,
    /// Read the next chunk of the body, bounded by the request's timeout.
    ReadChunk,
    /// Wait for this many stream permits of the rate limiter, then write the
    /// chunk that was read to the file.
    StoreChunk(usize),
    /// Flush the file to the file system.
    SyncFile,
    /// The task is over: this is its result.
    Finish(Result<(), TaskError>),
}

/// What came of the last action.
#[derive(Debug)]
pub enum Event {
    /// The action completed (permit granted, file created, chunk stored, file synced).
    Done,
    /// The server answered a HEAD or GET request with this status code and,
    /// where it sent one, this content length.
    Response { status: u16, content_length: Option<usize> },
    /// A chunk of this many bytes was read, or the body ended.
    Chunk(Option<usize>),
    /// The timeout of the request elapsed.
    TimedOut,
    /// The HTTP client failed.
    NetworkError(NetworkErrorKind),
    /// The file system failed.
    IoError(ErrorKind),
    /// The task was cancelled from outside.
    Cancelled,
}

/// Where an attempt stands.
#[derive(Debug)]
pub enum Stage {
    AwaitingPermit,
    CreatingFile,
    Probing,
    Fetching,
    Reading,
    Storing(usize),
    Syncing,
    Finished,
}

/// One decision: the next action and the status to publish, if any.
#[derive(Debug)]
pub struct Step {
    pub action: Action,
    pub status: Option<TaskStatus>,
}

/// The state of a download task across its attempts.
///
/// A task makes attempts numbered `0..=request.retries`; an attempt that
/// fails is followed by the next one, and the task fails with the error of
/// the last attempt.
#[derive(Debug)]
pub struct DownloadRun {
    pub request: DownloadRequest,
    pub attempt: usize,
    pub stage: Stage,
    pub total: Option<usize>,
    pub streamed: usize,
}

impl DownloadRun {
    pub open spec fn wf(self) -> bool {
        &&& self.request.retries < usize::MAX
        &&& self.attempt <= self.request.retries
    }

    /// The events that answer the action of the current stage; a chunk is
    /// stored only when the byte count stays within `usize`.
    pub open spec fn accepts(self, e: Event) -> bool {
        match self.stage {
            Stage::AwaitingPermit => e is Done || e is Cancelled,
            Stage::CreatingFile | Stage::Syncing => e is Done || e is IoError || e is Cancelled,
            Stage::Storing(n) => (e is Done && self.streamed + n <= usize::MAX) || e is IoError
                || e is Cancelled,
            Stage::Probing | Stage::Fetching => e is Response || e is TimedOut || e is NetworkError
                || e is Cancelled,
            Stage::Reading => e is Chunk || e is TimedOut || e is NetworkError || e is Cancelled,
            Stage::Finished => false,
        }
    }

    pub open spec fn status(self, status_type: TaskStatusType) -> Option<TaskStatus> {
        Some(TaskStatus { status_type, retries: self.attempt })
    }

    pub open spec fn with_stage(self, stage: Stage) -> DownloadRun {
        DownloadRun { stage, ..self }
    }

    /// The attempt ends with an error of this kind: the next attempt starts
    /// if one is left, else the task fails with it.
    pub open spec fn fail(self, kind: TaskErrorKind) -> (DownloadRun, Step) {
        let err = TaskError { kind, origional_request: self.request };
        if self.attempt < self.request.retries {
            let again = DownloadRun {
                attempt: (self.attempt + 1) as usize,
                stage: Stage::AwaitingPermit,
                total: None,
                streamed: 0,
                ..self
            };
            (again, Step { action: Action::AcquirePermit, status: again.status(TaskStatusType::Queuing) })
        } else {
            (
                self.with_stage(Stage::Finished),
                Step {
                    action: Action::Finish(Err(err)),
                    status: self.status(TaskStatusType::Failed(err)),
                },
            )
        }
    }

    /// The transition of the task on an event that the current stage accepts.
    pub open spec fn next(self, e: Event) -> (DownloadRun, Step) {
        match e {
            Event::Cancelled => (
                self.with_stage(Stage::Finished),
                Step {
                    action: Action::Finish(
                        Err(TaskError { kind: TaskErrorKind::Cancelled, origional_request: self.request }),
                    ),
                    status: None,
                },
            ),
            Event::TimedOut => self.fail(TaskErrorKind::TimedOut),
            Event::NetworkError(k) => self.fail(TaskErrorKind::Network(k)),
            Event::IoError(k) => self.fail(TaskErrorKind::IO(k)),
            Event::Response { status, content_length } => {
                if !is_success(status) {
                    self.fail(TaskErrorKind::Network(NetworkErrorKind::ClientStatus))
                } else if self.stage is Probing {
                    (
                        DownloadRun { stage: Stage::Fetching, total: content_length, ..self },
                        Step { action: Action::SendGet, status: None },
                    )
                } else {
                    (
                        DownloadRun { stage: Stage::Reading, streamed: 0, ..self },
                        Step {
                            action: Action::ReadChunk,
                            status: self.status(
                                TaskStatusType::Downloading { total: self.total, streamed: 0, rate: 0 },
                            ),
                        },
                    )
                }
            },
            Event::Chunk(c) => match c {
                Some(n) => (
                    self.with_stage(Stage::Storing(n)),
                    Step { action: Action::StoreChunk(n), status: None },
                ),
                None => (
                    self.with_stage(Stage::Syncing),
                    Step { action: Action::SyncFile, status: self.status(TaskStatusType::Finishing) },
                ),
            },
            Event::Done => match self.stage {
                Stage::AwaitingPermit => (
                    self.with_stage(Stage::CreatingFile),
                    Step { action: Action::CreateFile, status: self.status(TaskStatusType::Pending) },
                ),
                Stage::CreatingFile => (
                    self.with_stage(Stage::Probing),
                    Step { action: Action::SendHead, status: None },
                ),
                Stage::Storing(n) => {
                    let streamed = (self.streamed + n) as usize;
                    (
                        DownloadRun { stage: Stage::Reading, streamed, ..self },
                        Step {
                            action: Action::ReadChunk,
                            status: self.status(
                                TaskStatusType::Downloading { total: self.total, streamed, rate: 0 },
                            ),
                        },
                    )
                },
                _ => (
                    self.with_stage(Stage::Finished),
                    Step { action: Action::Finish(Ok(())), status: self.status(TaskStatusType::Completed) },
                ),
            },
        }
    }

    /// Starts a task: its first attempt queues for a concurrency permit.
    pub fn start(request: DownloadRequest) -> (r: (DownloadRun, Step))
        requires
            request.retries < usize::MAX,
        ensures
            r.0 == (DownloadRun {
                request,
                attempt: 0,
                stage: Stage::AwaitingPermit,
                total: None,
                streamed: 0,
            }),
            r.1 == (Step {
                action: Action::AcquirePermit,
                status: Some(TaskStatus { status_type: TaskStatusType::Queuing, retries: 0 }),
            }),
            r.0.wf(),
    {
        (
            DownloadRun { request, attempt: 0, stage: Stage::AwaitingPermit, total: None, streamed: 0 },
            Step {
                action: Action::AcquirePermit,
                status: Some(TaskStatus { status_type: TaskStatusType::Queuing, retries: 0 }),
            },
        )
    }

    /// Whether `e` answers the current action (see `accepts`).
    pub fn accepts_event(&self, e: &Event) -> (r: bool)
        ensures
            r == self.accepts(*e),
    {
        match self.stage {
            Stage::AwaitingPermit => matches!(e, Event::Done | Event::Cancelled),
            Stage::CreatingFile | Stage::Syncing => matches!(e, Event::Done | Event::IoError(_) | Event::Cancelled),
            Stage::Storing(n) => match e {
                Event::Done => n <= usize::MAX - self.streamed,
                Event::IoError(_) | Event::Cancelled => true,
                _ => false,
            },
            Stage::Probing | Stage::Fetching => matches!(
                e,
                Event::Response { .. } | Event::TimedOut | Event::NetworkError(_) | Event::Cancelled
            ),
            Stage::Reading => matches!(
                e,
                Event::Chunk(_) | Event::TimedOut | Event::NetworkError(_) | Event::Cancelled
            ),
            Stage::Finished => false,
        }
    }

    fn status_now(&self, status_type: TaskStatusType) -> (r: Option<TaskStatus>)
        ensures
            r == self.status(status_type),
    {
        Some(TaskStatus { status_type, retries: self.attempt })
    }

    fn fail_now(&mut self, kind: TaskErrorKind) -> (r: Step)
        requires
            old(self).wf(),
        ensures
            (*final(self), r) == old(self).fail(kind),
    {
        let err = TaskError { kind, origional_request: self.request.clone() };
        if self.attempt < self.request.retries {
            self.attempt = self.attempt + 1;
            self.stage = Stage::AwaitingPermit;
            self.total = None;
            self.streamed = 0;
            Step { action: Action::AcquirePermit, status: self.status_now(TaskStatusType::Queuing) }
        } else {
            self.stage = Stage::Finished;
            let status = self.status_now(TaskStatusType::Failed(err.clone()));
            Step { action: Action::Finish(Err(err)), status }
        }
    }

    /// Takes one decision: moves the task on `e` and says what to do next.
    pub fn step(&mut self, e: Event) -> (r: Step)
        requires
            old(self).wf(),
            old(self).accepts(e),
        ensures
            (*final(self), r) == old(self).next(e),
            final(self).wf(),
    {
        match e {
            Event::Cancelled => {
                let err = TaskError { kind: TaskErrorKind::Cancelled, origional_request: self.request.clone() };
                self.stage = Stage::Finished;
                Step { action: Action::Finish(Err(err)), status: None }
            },
            Event::TimedOut => self.fail_now(TaskErrorKind::TimedOut),
            Event::NetworkError(k) => self.fail_now(TaskErrorKind::Network(k)),
            Event::IoError(k) => self.fail_now(TaskErrorKind::IO(k)),
            Event::Response { status, content_length } => {
                if !status_is_success(status) {
                    self.fail_now(TaskErrorKind::Network(NetworkErrorKind::ClientStatus))
                } else if matches!(self.stage, Stage::Probing) {
                    self.stage = Stage::Fetching;
                    self.total = content_length;
                    Step { action: Action::SendGet, status: None }
                } else {
                    self.stage = Stage::Reading;
                    self.streamed = 0;
                    let status = self.status_now(
                        TaskStatusType::Downloading { total: self.total, streamed: 0, rate: 0 },
                    );
                    Step { action: Action::ReadChunk, status }
                }
            },
            Event::Chunk(c) => match c {
                Some(n) => {
                    self.stage = Stage::Storing(n);
                    Step { action: Action::StoreChunk(n), status: None }
                },
                None => {
                    self.stage = Stage::Syncing;
                    Step { action: Action::SyncFile, status: self.status_now(TaskStatusType::Finishing) }
                },
            },
            Event::Done => match self.stage {
                Stage::AwaitingPermit => {
                    self.stage = Stage::CreatingFile;
                    Step { action: Action::CreateFile, status: self.status_now(TaskStatusType::Pending) }
                },
                Stage::CreatingFile => {
                    self.stage = Stage::Probing;
                    Step { action: Action::SendHead, status: None }
                },
                Stage::Storing(n) => {
                    self.streamed = self.streamed + n;
                    self.stage = Stage::Reading;
                    let status = self.status_now(
                        TaskStatusType::Downloading { total: self.total, streamed: self.streamed, rate: 0 },
                    );
                    Step { action: Action::ReadChunk, status }
                },
                _ => {
                    self.stage = Stage::Finished;
                    Step { action: Action::Finish(Ok(())), status: self.status_now(TaskStatusType::Completed) }
                },
            },
        }
    }
}

impl DownloadRun {
    /// Whether every event of `evs`, in turn, answers the action of the stage
    /// it reaches.
    pub open spec fn accepts_all(self, evs: Seq<Event>) -> bool
        decreases evs.len(),
    {
        evs.len() == 0 || (self.accepts(evs[0]) && self.next(evs[0]).0.accepts_all(evs.drop_first()))
    }

    /// The state reached from this one by the events of `evs`, in turn.
    pub open spec fn run(self, evs: Seq<Event>) -> DownloadRun
        decreases evs.len(),
    {
        if evs.len() == 0 {
            self
        } else {
            self.next(evs[0]).0.run(evs.drop_first())
        }
    }
}

/// An event that ends the current attempt with an error.
pub open spec fn is_failure(e: Event) -> bool {
    ||| e is TimedOut
    ||| e is NetworkError
    ||| e is IoError
    ||| (e matches Event::Response { status, .. } && !is_success(status))
}

/// Every status a task publishes names the attempt that is running after
/// the step (and a failure is published with the number of the last attempt).
pub proof fn lemma_status_names_attempt(s: DownloadRun, e: Event)
    requires
        s.wf(),
        s.accepts(e),
    ensures
        s.next(e).1.status matches Some(st) ==> st.retries == s.next(e).0.attempt,
        s.next(e).0.wf(),
        s.next(e).0.request == s.request,
{
}

/// A task fails only after its last attempt failed; it then publishes the
/// failure with the number of its last attempt, and the error carries the
/// request.
pub proof fn lemma_fails_after_last_attempt(s: DownloadRun, e: Event)
    requires
        s.wf(),
        s.accepts(e),
        s.next(e).1.action matches Action::Finish(Err(err)) && !(err.kind is Cancelled),
    ensures
        s.attempt == s.request.retries,
        is_failure(e),
        s.next(e).1.action matches Action::Finish(Err(err)) && err.origional_request == s.request
            && s.next(e).1.status == Some(
            TaskStatus { status_type: TaskStatusType::Failed(err), retries: s.request.retries },
        ),
{
}

/// An attempt that fails while attempts are left is followed by the next
/// attempt, which queues again for a permit.
pub proof fn lemma_failure_retries(s: DownloadRun, e: Event)
    requires
        s.wf(),
        s.accepts(e),
        is_failure(e),
        s.attempt < s.request.retries,
    ensures
        s.next(e).0.attempt == s.attempt + 1,
        s.next(e).0.stage is AwaitingPermit,
        s.next(e).0.streamed == 0,
        s.next(e).1 == (Step {
            action: Action::AcquirePermit,
            status: Some(TaskStatus { status_type: TaskStatusType::Queuing, retries: (s.attempt + 1) as usize }),
        }),
{
}

/// A task completes only by syncing its file after the body ended, and then
/// publishes `Completed`.
pub proof fn lemma_completes_after_sync(s: DownloadRun, e: Event)
    requires
        s.wf(),
        s.accepts(e),
        s.next(e).1.action matches Action::Finish(Ok(_)),
    ensures
        s.stage is Syncing,
        e is Done,
        s.next(e).1.status == Some(TaskStatus { status_type: TaskStatusType::Completed, retries: s.attempt }),
{
}

/// Cancellation ends the task at once, with no status published.
pub proof fn lemma_cancel_ends(s: DownloadRun)
    requires
        s.wf(),
        !(s.stage is Finished),
    ensures
        s.accepts(Event::Cancelled),
        s.next(Event::Cancelled).0.stage is Finished,
        s.next(Event::Cancelled).1.status is None,
        s.next(Event::Cancelled).1.action == Action::Finish(
            Err(TaskError { kind: TaskErrorKind::Cancelled, origional_request: s.request }),
        ),
{
}

/// Over any run of accepted events the request is kept, the attempt number
/// never decreases and never passes the number of retries, and a finished
/// task accepts nothing more.
pub proof fn lemma_run_bounded(s: DownloadRun, evs: Seq<Event>)
    requires
        s.wf(),
        s.accepts_all(evs),
    ensures
        s.run(evs).wf(),
        s.run(evs).request == s.request,
        s.attempt <= s.run(evs).attempt <= s.request.retries,
        s.stage is Finished ==> evs.len() == 0,
    decreases evs.len(),
{
    if evs.len() > 0 {
        lemma_status_names_attempt(s, evs[0]);
        lemma_run_bounded(s.next(evs[0]).0, evs.drop_first());
    }
}

/// The bytes stored by the events of `evs` from state `s`: the sizes of the
/// chunks whose write completed.
pub open spec fn stored_bytes(s: DownloadRun, evs: Seq<Event>) -> int
    decreases evs.len(),
{
    if evs.len() == 0 {
        0
    } else {
        let now = match s.stage {
            Stage::Storing(n) => if evs[0] is Done {
                n as int
            } else {
                0
            },
            _ => 0,
        };
        now + stored_bytes(s.next(evs[0]).0, evs.drop_first())
    }
}

/// Whether the run from `s` by `evs` stays in the body of one response:
/// reading chunks and storing them.
pub open spec fn stays_in_body(s: DownloadRun, evs: Seq<Event>) -> bool
    decreases evs.len(),
{
    &&& (s.stage is Reading || s.stage is Storing)
    &&& (evs.len() == 0 || stays_in_body(s.next(evs[0]).0, evs.drop_first()))
}

/// The number of events of `evs` that end an attempt with an error.
pub open spec fn failures(evs: Seq<Event>) -> nat
    decreases evs.len(),
{
    if evs.len() == 0 {
        0
    } else {
        (if is_failure(evs[0]) {
            1nat
        } else {
            0nat
        }) + failures(evs.drop_first())
    }
}

/// A task makes at most `retries + 1` attempts: over any run of accepted
/// events, the attempts that fail number at most the attempts left.
pub proof fn lemma_attempts_bounded(s: DownloadRun, evs: Seq<Event>)
    requires
        s.wf(),
        s.accepts_all(evs),
    ensures
        s.attempt + failures(evs) <= s.request.retries + 1,
    decreases evs.len(),
{
    if evs.len() > 0 {
        let e = evs[0];
        let t = s.next(e).0;
        lemma_status_names_attempt(s, e);
        if t.stage is Finished {
            assert(t.accepts_all(evs.drop_first()));
            assert(evs.drop_first().len() == 0);
            assert(failures(evs.drop_first()) == 0);
        } else {
            lemma_attempts_bounded(t, evs.drop_first());
        }
    }
}

/// While a body is being downloaded, the byte count grows by exactly the
/// sizes of the chunks stored; the `Downloading` status published after a
/// chunk is stored carries that count.
pub proof fn lemma_streamed_counts_stored(s: DownloadRun, evs: Seq<Event>)
    requires
        s.wf(),
        s.accepts_all(evs),
        stays_in_body(s, evs),
    ensures
        s.run(evs).streamed == s.streamed + stored_bytes(s, evs),
        s.run(evs).attempt == s.attempt,
    decreases evs.len(),
{
    if evs.len() > 0 {
        let e = evs[0];
        let t = s.next(e).0;
        lemma_status_names_attempt(s, e);
        assert(stays_in_body(t, evs.drop_first()));
        lemma_streamed_counts_stored(t, evs.drop_first());
    }
}

/// A stored chunk publishes the new byte count, and the count starts from
/// zero when the body of the GET response begins.
pub proof fn lemma_downloading_status(s: DownloadRun, e: Event)
    requires
        s.wf(),
        s.accepts(e),
    ensures
        (s.stage is Storing && e is Done) ==> s.next(e).1.status == Some(
            TaskStatus {
                status_type: TaskStatusType::Downloading {
                    total: s.total,
                    streamed: (s.streamed + s.stage->Storing_0) as usize,
                    rate: 0,
                },
                retries: s.attempt,
            },
        ),
        (s.stage is Fetching && e is Response && is_success(e->status))
            ==> s.next(e).0.streamed == 0 && s.next(e).1.status == Some(
            TaskStatus {
                status_type: TaskStatusType::Downloading { total: s.total, streamed: 0, rate: 0 },
                retries: s.attempt,
            },
        ),
{
}

/// The action a stage waits on: the event given to a task in that stage is
/// the outcome of this action.
pub open spec fn awaited(stage: Stage) -> Action {
    match stage {
        Stage::AwaitingPermit => Action::AcquirePermit,
        Stage::CreatingFile => Action::CreateFile,
        Stage::Probing => Action::SendHead,
        Stage::Fetching => Action::SendGet,
        Stage::Reading => Action::ReadChunk,
        Stage::Storing(n) => Action::StoreChunk(n),
        _ => Action::SyncFile,
    }
}

/// Each action a task asks for is the one its new stage waits on, so the
/// next event answers it. In particular `Pending` is published only once the
/// concurrency permit was granted, a chunk is stored only after it was read
/// (`StoreChunk(n)` follows `Chunk(Some(n))`), and the byte count grows only
/// when a `StoreChunk(n)` (stream permits, then the write) completed.
pub proof fn lemma_actions_in_order(s: DownloadRun, e: Event)
    requires
        s.wf(),
        s.accepts(e),
    ensures
        !(s.next(e).0.stage is Finished) ==> s.next(e).1.action == awaited(s.next(e).0.stage),
        (s.next(e).1.status matches Some(st) && st.status_type is Pending) ==> (s.stage is AwaitingPermit
            && e is Done),
        s.next(e).1.action is StoreChunk ==> (s.stage is Reading && e == Event::Chunk(
            Some(s.next(e).1.action->StoreChunk_0),
        )),
        s.next(e).0.streamed > s.streamed ==> (s.stage is Storing && e is Done && s.next(e).0.streamed
            == s.streamed + s.stage->Storing_0),
{
}

/// The order of the stages of an attempt.
pub open spec fn stage_rank(stage: Stage) -> int {
    match stage {
        Stage::AwaitingPermit => 0,
        Stage::CreatingFile | Stage::Probing | Stage::Fetching => 1,
        Stage::Reading | Stage::Storing(_) => 2,
        Stage::Syncing => 3,
        Stage::Finished => 4,
    }
}

/// The order of the statuses of an attempt.
pub open spec fn status_rank(t: TaskStatusType) -> int {
    match t {
        TaskStatusType::Queuing => 0,
        TaskStatusType::Pending => 1,
        TaskStatusType::Downloading { .. } => 2,
        TaskStatusType::Finishing => 3,
        TaskStatusType::Completed => 4,
        TaskStatusType::Failed(_) => 5,
    }
}

pub open spec fn in_body(stage: Stage) -> bool {
    stage is Reading || stage is Storing
}

/// The statuses published by the run from `s` by `evs`, in order.
pub open spec fn published(s: DownloadRun, evs: Seq<Event>) -> Seq<TaskStatus>
    decreases evs.len(),
{
    if evs.len() == 0 {
        Seq::empty()
    } else {
        let rest = published(s.next(evs[0]).0, evs.drop_first());
        match s.next(evs[0]).1.status {
            Some(st) => seq![st] + rest,
            None => rest,
        }
    }
}

/// Whether status `a` may be followed by status `b` within an attempt:
/// a later stage, or a download that has not lost bytes.
pub open spec fn in_order(a: TaskStatus, b: TaskStatus) -> bool {
    ||| status_rank(a.status_type) < status_rank(b.status_type)
    ||| (a.status_type is Downloading && b.status_type is Downloading && a.status_type->streamed
        <= b.status_type->streamed)
}

/// What a status published after state `s` is, relative to `s`.
pub open spec fn after(s: DownloadRun, st: TaskStatus) -> bool {
    ||| status_rank(st.status_type) > stage_rank(s.stage)
    ||| (st.status_type is Downloading && in_body(s.stage) && st.status_type->streamed >= s.streamed)
}

proof fn lemma_step_order(s: DownloadRun, e: Event)
    requires
        s.wf(),
        s.accepts(e),
        s.next(e).0.attempt == s.attempt,
    ensures
        stage_rank(s.next(e).0.stage) >= stage_rank(s.stage),
        (in_body(s.stage) && in_body(s.next(e).0.stage)) ==> s.next(e).0.streamed >= s.streamed,
        s.next(e).1.status matches Some(st) ==> {
            &&& st.retries == s.attempt
            &&& after(s, st)
            &&& (s.next(e).0.stage is Finished || status_rank(st.status_type) <= stage_rank(s.next(e).0.stage))
            &&& (st.status_type is Downloading ==> in_body(s.next(e).0.stage) && st.status_type->streamed
                == s.next(e).0.streamed)
        },
{
}

/// Within one attempt, the statuses a task publishes come in the order
/// Queuing, Pending, Downloading (with a byte count that never decreases),
/// Finishing, Completed (or Failed), each at most once but Downloading, and
/// all name the attempt.
pub proof fn lemma_attempt_statuses_in_order(s: DownloadRun, evs: Seq<Event>)
    requires
        s.wf(),
        s.accepts_all(evs),
        s.run(evs).attempt == s.attempt,
    ensures
        forall|i: int| 0 <= i < published(s, evs).len() ==> (#[trigger] published(s, evs)[i]).retries == s.attempt,
        forall|i: int| 0 <= i < published(s, evs).len() ==> after(s, #[trigger] published(s, evs)[i]),
        forall|i: int, j: int|
            0 <= i < j < published(s, evs).len() ==> in_order(
                #[trigger] published(s, evs)[i],
                #[trigger] published(s, evs)[j],
            ),
    decreases evs.len(),
{
    if evs.len() > 0 {
        let e = evs[0];
        let t = s.next(e).0;
        let rest = evs.drop_first();
        lemma_status_names_attempt(s, e);
        assert(t.accepts_all(rest));
        lemma_run_bounded(t, rest);
        assert(s.run(evs) == t.run(rest));
        lemma_step_order(s, e);
        lemma_attempt_statuses_in_order(t, rest);
        let tail = published(t, rest);
        assert forall|j: int| 0 <= j < tail.len() implies after(s, #[trigger] tail[j]) by {
            assert(after(t, tail[j]));
        }
        if t.stage is Finished {
            assert(rest.len() == 0);
        }
        match s.next(e).1.status {
            Some(st) => {
                let p = published(s, evs);
                assert(p == seq![st] + tail);
                assert forall|j: int| 0 <= j < tail.len() implies in_order(st, #[trigger] tail[j]) by {
                    assert(after(t, tail[j]));
                }
                assert forall|i: int, j: int| 0 <= i < j < p.len() implies in_order(#[trigger] p[i], #[trigger] p[j]) by {
                    if i == 0 {
                        assert(p[j] == tail[j - 1]);
                    } else {
                        assert(p[i] == tail[i - 1] && p[j] == tail[j - 1]);
                    }
                }
                assert forall|i: int| 0 <= i < p.len() implies after(s, #[trigger] p[i]) && (#[trigger] p[i]).retries == s.attempt by {
                    if i > 0 {
                        assert(p[i] == tail[i - 1]);
                    }
                }
            },
            None => {
                assert(published(s, evs) == tail);
            },
        }
    }
}

/// The last attempt fails with the error its failure calls for, and
/// publishes that failure: a timeout is `TimedOut`, a client error of kind
/// `k` is `Network(k)`, a file-system error of kind `k` is `IO(k)`, and a
/// response that is not a success is `Network(ClientStatus)`.
pub proof fn lemma_failure_kinds(s: DownloadRun, k: NetworkErrorKind, io: ErrorKind, status: u16, cl: Option<usize>)
    requires
        s.wf(),
        s.attempt == s.request.retries,
    ensures
        s.accepts(Event::TimedOut) ==> s.next(Event::TimedOut).1 == (Step {
            action: Action::Finish(Err(TaskError { kind: TaskErrorKind::TimedOut, origional_request: s.request })),
            status: Some(TaskStatus {
                status_type: TaskStatusType::Failed(TaskError { kind: TaskErrorKind::TimedOut, origional_request: s.request }),
                retries: s.request.retries,
            }),
        }),
        s.accepts(Event::NetworkError(k)) ==> s.next(Event::NetworkError(k)).1 == (Step {
            action: Action::Finish(Err(TaskError { kind: TaskErrorKind::Network(k), origional_request: s.request })),
            status: Some(TaskStatus {
                status_type: TaskStatusType::Failed(TaskError { kind: TaskErrorKind::Network(k), origional_request: s.request }),
                retries: s.request.retries,
            }),
        }),
        s.accepts(Event::IoError(io)) ==> s.next(Event::IoError(io)).1 == (Step {
            action: Action::Finish(Err(TaskError { kind: TaskErrorKind::IO(io), origional_request: s.request })),
            status: Some(TaskStatus {
                status_type: TaskStatusType::Failed(TaskError { kind: TaskErrorKind::IO(io), origional_request: s.request }),
                retries: s.request.retries,
            }),
        }),
        (s.accepts(Event::Response { status, content_length: cl }) && !(200 <= status && status <= 299)) ==> s.next(
            Event::Response { status, content_length: cl },
        ).1 == (Step {
            action: Action::Finish(
                Err(TaskError { kind: TaskErrorKind::Network(NetworkErrorKind::ClientStatus), origional_request: s.request }),
            ),
            status: Some(TaskStatus {
                status_type: TaskStatusType::Failed(
                    TaskError { kind: TaskErrorKind::Network(NetworkErrorKind::ClientStatus), origional_request: s.request },
                ),
                retries: s.request.retries,
            }),
        }),
{
}

/// A task that is not finished accepts every outcome of the action it
/// waits on: a permit, a created file or a sync is `Done` or (for files) an
/// IO error; a HEAD or GET gives any response, a timeout or a client error;
/// a read gives any chunk or end, a timeout or a client error; a store is
/// done (when the count fits in `usize`) or an IO error; and a task can
/// always be cancelled.
pub proof fn lemma_outcomes_accepted(s: DownloadRun, k: NetworkErrorKind, io: ErrorKind, status: u16, cl: Option<usize>, c: Option<usize>)
    requires
        s.wf(),
        !(s.stage is Finished),
    ensures
        s.accepts(Event::Cancelled),
        s.stage is AwaitingPermit ==> s.accepts(Event::Done),
        (s.stage is CreatingFile || s.stage is Syncing || s.stage is Storing) ==> s.accepts(Event::IoError(io)),
        (s.stage is CreatingFile || s.stage is Syncing) ==> s.accepts(Event::Done),
        (s.stage is Storing && s.streamed + s.stage->Storing_0 <= usize::MAX) ==> s.accepts(Event::Done),
        (s.stage is Probing || s.stage is Fetching) ==> s.accepts(Event::Response { status, content_length: cl }),
        (s.stage is Probing || s.stage is Fetching || s.stage is Reading) ==> s.accepts(Event::TimedOut) && s.accepts(
            Event::NetworkError(k),
        ),
        s.stage is Reading ==> s.accepts(Event::Chunk(c)),
{
}

/// Whether `e` is an outcome of `action`.
pub open spec fn answers(action: Action, e: Event) -> bool {
    match action {
        Action::AcquirePermit => e is Done,
        Action::CreateFile | Action::SyncFile | Action::StoreChunk(_) => e is Done || e is IoError,
        Action::SendHead | Action::SendGet => e is Response || e is TimedOut || e is NetworkError,
        Action::ReadChunk => e is Chunk || e is TimedOut || e is NetworkError,
        Action::Finish(_) => false,
    }
}

/// A task accepts nothing but a cancellation or an outcome of the action it
/// waits on, and a finished task accepts nothing.
pub proof fn lemma_only_outcomes_accepted(s: DownloadRun, e: Event)
    requires
        s.accepts(e),
    ensures
        !(s.stage is Finished),
        e is Cancelled || answers(awaited(s.stage), e),
{
}

/// HTTP success is exactly the 2xx range.
pub proof fn lemma_success_statuses(status: u16)
    ensures
        is_success(status) <==> (200 <= status && status < 300),
{
}

/// A client error is classified by the first predicate that holds, in the
/// order body, builder, connect, decode, redirect, request; none gives
/// `Unknown`.
pub proof fn lemma_network_kind_priority(b: bool, bu: bool, c: bool, d: bool, re: bool, rq: bool)
    ensures
        b ==> network_kind_of(b, bu, c, d, re, rq) == NetworkErrorKind::Body,
        !b && bu ==> network_kind_of(b, bu, c, d, re, rq) == NetworkErrorKind::Builder,
        !b && !bu && c ==> network_kind_of(b, bu, c, d, re, rq) == NetworkErrorKind::Connect,
        !b && !bu && !c && d ==> network_kind_of(b, bu, c, d, re, rq) == NetworkErrorKind::Decode,
        !b && !bu && !c && !d && re ==> network_kind_of(b, bu, c, d, re, rq) == NetworkErrorKind::Redirect,
        !b && !bu && !c && !d && !re && rq ==> network_kind_of(b, bu, c, d, re, rq) == NetworkErrorKind::Request,
        !b && !bu && !c && !d && !re && !rq ==> network_kind_of(b, bu, c, d, re, rq) == NetworkErrorKind::Unknown,
{
}

/// An attempt that goes well runs through every stage: from the permit
/// wait, a granted permit, a created file, a successful HEAD with content
/// length `cl`, a successful GET, one chunk of `n` bytes stored and the end
/// of the body, then a sync, publish Pending, Downloading from 0 and then
/// `n` bytes out of `cl`, Finishing and Completed, all in that attempt, and
/// the task completes.
pub proof fn lemma_successful_attempt(s: DownloadRun, cl: Option<usize>, ok1: u16, ok2: u16, other: Option<usize>, n: usize)
    requires
        s.wf(),
        s.stage is AwaitingPermit,
        200 <= ok1 <= 299,
        200 <= ok2 <= 299,
    ensures ({
        let evs = seq![
            Event::Done,
            Event::Done,
            Event::Response { status: ok1, content_length: cl },
            Event::Response { status: ok2, content_length: other },
            Event::Chunk(Some(n)),
            Event::Done,
            Event::Chunk(None),
            Event::Done,
        ];
        let st = |t: TaskStatusType| TaskStatus { status_type: t, retries: s.attempt };
        &&& s.accepts_all(evs)
        &&& published(s, evs) == seq![
            st(TaskStatusType::Pending),
            st(TaskStatusType::Downloading { total: cl, streamed: 0, rate: 0 }),
            st(TaskStatusType::Downloading { total: cl, streamed: n, rate: 0 }),
            st(TaskStatusType::Finishing),
            st(TaskStatusType::Completed),
        ]
        &&& s.run(evs).stage is Finished
        &&& s.run(evs).streamed == n
    }),
{
    let evs = seq![
        Event::Done,
        Event::Done,
        Event::Response { status: ok1, content_length: cl },
        Event::Response { status: ok2, content_length: other },
        Event::Chunk(Some(n)),
        Event::Done,
        Event::Chunk(None),
        Event::Done,
    ];
    let s1 = s.next(evs[0]).0;
    let s2 = s1.next(evs[1]).0;
    let s3 = s2.next(evs[2]).0;
    let s4 = s3.next(evs[3]).0;
    let s5 = s4.next(evs[4]).0;
    let s6 = s5.next(evs[5]).0;
    let s7 = s6.next(evs[6]).0;
    let s8 = s7.next(evs[7]).0;
    let e1 = evs.drop_first();
    let e2 = e1.drop_first();
    let e3 = e2.drop_first();
    let e4 = e3.drop_first();
    let e5 = e4.drop_first();
    let e6 = e5.drop_first();
    let e7 = e6.drop_first();
    let e8 = e7.drop_first();
    assert(e8.len() == 0);
    assert(e7 =~= seq![evs[7]]);
    assert(e6 =~= seq![evs[6], evs[7]]);
    assert(e5 =~= seq![evs[5], evs[6], evs[7]]);
    assert(e4 =~= seq![evs[4], evs[5], evs[6], evs[7]]);
    assert(e3 =~= seq![evs[3], evs[4], evs[5], evs[6], evs[7]]);
    assert(e2 =~= seq![evs[2], evs[3], evs[4], evs[5], evs[6], evs[7]]);
    assert(e1 =~= seq![evs[1], evs[2], evs[3], evs[4], evs[5], evs[6], evs[7]]);
    assert(s8.accepts_all(e8));
    assert(s7.accepts_all(e7));
    assert(s6.accepts_all(e6));
    assert(s5.accepts_all(e5));
    assert(s4.accepts_all(e4));
    assert(s3.accepts_all(e3));
    assert(s2.accepts_all(e2));
    assert(s1.accepts_all(e1));
    assert(s.accepts_all(evs));
    assert(s8.run(e8) == s8);
    assert(s7.run(e7) == s8);
    assert(s6.run(e6) == s8);
    assert(s5.run(e5) == s8);
    assert(s4.run(e4) == s8);
    assert(s3.run(e3) == s8);
    assert(s2.run(e2) == s8);
    assert(s1.run(e1) == s8);
    assert(published(s8, e8) =~= Seq::<TaskStatus>::empty());
    assert(published(s7, e7) =~= published(s8, e8).insert(0, s7.next(evs[7]).1.status.unwrap()));
    assert(published(s6, e6) =~= published(s7, e7).insert(0, s6.next(evs[6]).1.status.unwrap()));
    assert(published(s5, e5) =~= published(s6, e6).insert(0, s5.next(evs[5]).1.status.unwrap()));
    assert(published(s4, e4) == published(s5, e5));
    assert(published(s3, e3) =~= published(s4, e4).insert(0, s3.next(evs[3]).1.status.unwrap()));
    assert(published(s2, e2) == published(s3, e3));
    assert(published(s1, e1) == published(s2, e2));
    assert(published(s, evs) =~= published(s1, e1).insert(0, s.next(evs[0]).1.status.unwrap()));
}

} // verus!
