use std::path::PathBuf;
use std::time::Duration;
use vstd::prelude::*;

use crate::task::TaskError;

pub mod download_manager;
pub mod task_manager;

verus! {

/// `std::path::PathBuf`, carried through requests as an opaque value.
#[verifier::external_type_specification]
#[verifier::external_body]
pub struct ExPathBuf(PathBuf);

/// `<PathBuf as Clone>::clone`: std documents that a clone is a copy of the
/// value, so the copy is stated to be equal to the value cloned.
pub assume_specification[ <PathBuf as Clone>::clone ](p: &PathBuf) -> (r: PathBuf)
    ensures
        r == *p,
;

/// What to download and where to put it.
///
/// `retries` is the number of extra attempts after the first one fails,
/// so a task makes at most `retries + 1` attempts.
#[derive(Debug, PartialEq)]
pub struct DownloadRequest {
    pub path: PathBuf,
    pub url: String,
    pub retries: usize,
    pub timeout: Duration,
}

impl Clone for DownloadRequest {
    fn clone(&self) -> (r: Self)
        ensures
            r == *self,
    {
        DownloadRequest {
            path: self.path.clone(),
            url: self.url.clone(),
            retries: self.retries,
            timeout: self.timeout,
        }
    }
}

impl DownloadRequest {
    /// Builds a request; `retries` must be at least one.
    pub fn new(path: PathBuf, url: String, retries: usize, timeout: Duration) -> (r: Self)
        requires
            retries > 0,
        ensures
            r.path == path,
            r.url == url,
            r.retries == retries,
            r.timeout == timeout,
    {
        DownloadRequest { path, url, retries, timeout }
    }
}

/// What the registry reports of a task: its current stage and the index of
/// the attempt that is running (0 for the first one).
#[derive(Debug)]
pub struct TaskStatus {
    pub status_type: TaskStatusType,
    pub retries: usize,
}

impl Clone for TaskStatus {
    fn clone(&self) -> (r: Self)
        ensures
            r == *self,
    {
        TaskStatus { status_type: self.status_type.clone(), retries: self.retries }
    }
}

/// The stages a download task goes through.
#[derive(Debug, PartialEq)]
pub enum TaskStatusType {
    Queuing,
    Pending,
    Downloading { total: Option<usize>, streamed: usize, rate: usize },
    Finishing,
    Completed,
    Failed(TaskError),
}

impl Clone for TaskStatusType {
    fn clone(&self) -> (r: Self)
        ensures
            r == *self,
    {
        match self {
            TaskStatusType::Queuing => TaskStatusType::Queuing,
            TaskStatusType::Pending => TaskStatusType::Pending,
            TaskStatusType::Downloading { total, streamed, rate } => TaskStatusType::Downloading {
                total: *total,
                streamed: *streamed,
                rate: *rate,
            },
            TaskStatusType::Finishing => TaskStatusType::Finishing,
            TaskStatusType::Completed => TaskStatusType::Completed,
            TaskStatusType::Failed(err) => TaskStatusType::Failed(err.clone()),
        }
    }
}

impl TaskStatusType {
    /// A stage is final when the task completed or failed.
    pub open spec fn spec_finished(&self) -> bool {
        self is Completed || self is Failed
    }

    pub fn is_finished(&self) -> (r: bool)
        ensures
            r == self.spec_finished(),
    {
        match self {
            TaskStatusType::Failed(_) => true,
            TaskStatusType::Completed => true,
            _ => false,
        }
    }
}

/// Exactly the completed and the failed stages are final.
pub proof fn lemma_final_stages(err: TaskError, total: Option<usize>, streamed: usize, rate: usize)
    ensures
        TaskStatusType::Completed.spec_finished(),
        TaskStatusType::Failed(err).spec_finished(),
        !TaskStatusType::Queuing.spec_finished(),
        !TaskStatusType::Pending.spec_finished(),
        !TaskStatusType::Finishing.spec_finished(),
        !(TaskStatusType::Downloading { total, streamed, rate }).spec_finished(),
{
}

} // verus!
