use vstd::prelude::*;

verus! {

/// How urgent a queued download is.
#[derive(Debug, PartialEq, Eq, Structural)]
pub enum Priority {
    High,
    Normal,
    Low,
}

/// A queued download, by name.
pub struct DownloadTask {
    id: String,
    priority: Priority,
}

/// A queue of named downloads.
pub struct TaskManager {
    tasks: Vec<DownloadTask>,
}

impl TaskManager {
    /// The number of queued downloads.
    pub closed spec fn spec_len(&self) -> nat {
        self.tasks@.len()
    }

    fn new() -> (r: TaskManager)
        ensures
            r.spec_len() == 0,
    {
        TaskManager { tasks: Vec::new() }
    }
}

} // verus!
