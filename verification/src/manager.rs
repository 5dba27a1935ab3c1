use dashmap::DashMap;
use vstd::prelude::*;

use crate::engine::{TaskStatus, TaskStatusType};

verus! {

/// `dashmap::DashMap`, the concurrent hash map that holds the statuses.
#[verifier::external_type_specification]
#[verifier::external_body]
#[verifier::reject_recursive_types(K)]
#[verifier::reject_recursive_types(V)]
#[verifier::reject_recursive_types(S)]
pub struct ExDashMap<K, V, S>(DashMap<K, V, S>);

/// The entries of a status table: task id to status.
pub uninterp spec fn status_entries(m: DashMap<u64, TaskStatus>) -> Map<u64, TaskStatus>;

/// `DashMap::new`: the map it makes is empty.
#[verifier::external_body]
fn table_new() -> (table: DashMap<u64, TaskStatus>)
    ensures
        status_entries(table) =~= Map::empty(),
{
    DashMap::new()
}

/// `DashMap::insert`: afterwards `key` maps to `value` and every other entry
/// is unchanged (the old value it returns is dropped here).
#[verifier::external_body]
fn table_insert(m: &mut DashMap<u64, TaskStatus>, key: u64, value: TaskStatus)
    ensures
        status_entries(*final(m)) == status_entries(*old(m)).insert(key, value),
{
    m.insert(key, value);
}

/// `DashMap::remove`: afterwards `key` has no entry and every other entry is
/// unchanged (the removed pair it returns is dropped here).
#[verifier::external_body]
fn table_remove(m: &mut DashMap<u64, TaskStatus>, key: u64)
    ensures
        status_entries(*final(m)) == status_entries(*old(m)).remove(key),
{
    m.remove(&key);
}

/// `DashMap::contains_key`: whether `key` has an entry.
#[verifier::external_body]
fn table_contains(m: &DashMap<u64, TaskStatus>, key: u64) -> (r: bool)
    ensures
        r == status_entries(*m).contains_key(key),
{
    m.contains_key(&key)
}

/// `DashMap::get`, with the entry it finds copied out by `TaskStatus::clone`
/// (proved to return an equal value): the value under `key`, if any.
#[verifier::external_body]
fn table_get(m: &DashMap<u64, TaskStatus>, key: u64) -> (r: Option<TaskStatus>)
    ensures
        r == lookup(status_entries(*m), key),
{
    m.get(&key).map(|entry| entry.value().clone())
}

/// The status under `id`, if the table has one.
pub open spec fn lookup(m: Map<u64, TaskStatus>, id: u64) -> Option<TaskStatus> {
    if m.contains_key(id) {
        Some(m[id])
    } else {
        None
    }
}

/// The status a task is registered with.
pub open spec fn registered() -> TaskStatus {
    TaskStatus { status_type: TaskStatusType::Pending, retries: 0 }
}

/// The table after registering every id of `ids`.
pub open spec fn register_all(m: Map<u64, TaskStatus>, ids: Seq<u64>) -> Map<u64, TaskStatus> {
    Map::new(
        |k: u64| m.contains_key(k) || ids.contains(k),
        |k: u64| if ids.contains(k) { registered() } else { m[k] },
    )
}

/// The table after a status update: only a registered task is updated.
pub open spec fn apply_update(m: Map<u64, TaskStatus>, id: u64, status: TaskStatus) -> Map<u64, TaskStatus> {
    if m.contains_key(id) {
        m.insert(id, status)
    } else {
        m
    }
}

/// The table after a status read: a final status is handed out once and then
/// forgotten.
pub open spec fn after_read(m: Map<u64, TaskStatus>, id: u64) -> Map<u64, TaskStatus> {
    if m.contains_key(id) && m[id].status_type.spec_finished() {
        m.remove(id)
    } else {
        m
    }
}

proof fn lemma_push_contains(s: Seq<u64>, x: u64, k: u64)
    ensures
        s.push(x).contains(k) == (s.contains(k) || k == x),
{
    if s.contains(k) {
        let j = choose|j: int| 0 <= j < s.len() && s[j] == k;
        assert(s.push(x)[j] == k);
    }
    if k == x {
        assert(s.push(x)[s.len() as int] == k);
    }
    if s.push(x).contains(k) {
        let j = choose|j: int| 0 <= j < s.push(x).len() && s.push(x)[j] == k;
        if j < s.len() {
            assert(s[j] == k);
        }
    }
}

/// The registry of task statuses, keyed by task id.
pub struct TaskManager {
    tasks: DashMap<u64, TaskStatus>,
}

impl View for TaskManager {
    type V = Map<u64, TaskStatus>;

    closed spec fn view(&self) -> Map<u64, TaskStatus> {
        status_entries(self.tasks)
    }
}

impl TaskManager {
    pub fn new() -> (r: Self)
        ensures
            r@ == Map::<u64, TaskStatus>::empty(),
    {
        TaskManager { tasks: table_new() }
    }

    /// Registers a task as pending in its first attempt.
    pub fn new_task(&mut self, task_id: u64)
        ensures
            final(self)@ == old(self)@.insert(task_id, registered()),
    {
        table_insert(&mut self.tasks, task_id, TaskStatus { status_type: TaskStatusType::Pending, retries: 0 });
    }

    /// Registers every task of `task_ids` as pending in its first attempt.
    pub fn new_tasks(&mut self, task_ids: Vec<u64>)
        ensures
            final(self)@ == register_all(old(self)@, task_ids@),
    {
        let mut i: usize = 0;
        while i < task_ids.len()
            invariant
                i <= task_ids.len(),
                self@ == register_all(old(self)@, task_ids@.take(i as int)),
            decreases task_ids.len() - i,
        {
            self.new_task(task_ids[i]);
            assert(task_ids@.take(i + 1) == task_ids@.take(i as int).push(task_ids@[i as int]));
            assert forall|k: u64| #[trigger] task_ids@.take(i + 1).contains(k)
                == (task_ids@.take(i as int).contains(k) || k == task_ids@[i as int]) by {
                lemma_push_contains(task_ids@.take(i as int), task_ids@[i as int], k);
            }
            assert(self@ =~= register_all(old(self)@, task_ids@.take(i + 1)));
            i = i + 1;
        }
        assert(task_ids@.take(task_ids.len() as int) == task_ids@);
    }

    /// The status of a task; a final status (completed or failed) is
    /// removed from the registry once it has been read.
    pub fn get_status(&mut self, task_id: u64) -> (r: Option<TaskStatus>)
        ensures
            r == lookup(old(self)@, task_id),
            final(self)@ == after_read(old(self)@, task_id),
    {
        let status = table_get(&self.tasks, task_id);
        if let Some(ref s) = status {
            if s.status_type.is_finished() {
                table_remove(&mut self.tasks, task_id);
            }
        }
        status
    }

    /// The statuses of the given tasks, in order; nothing is removed.
    pub fn get_statuses(&self, task_ids: Vec<u64>) -> (r: Vec<Option<TaskStatus>>)
        ensures
            r@.len() == task_ids@.len(),
            forall|i: int| 0 <= i < r@.len() ==> #[trigger] r@[i] == lookup(self@, task_ids@[i]),
    {
        let mut out: Vec<Option<TaskStatus>> = Vec::new();
        let mut i: usize = 0;
        while i < task_ids.len()
            invariant
                i <= task_ids.len(),
                out@.len() == i,
                forall|j: int| 0 <= j < i ==> #[trigger] out@[j] == lookup(self@, task_ids@[j]),
            decreases task_ids.len() - i,
        {
            out.push(table_get(&self.tasks, task_ids[i]));
            i = i + 1;
        }
        out
    }

    /// Replaces the status of a registered task; an unknown id is ignored.
    pub fn update_status(&mut self, task_id: u64, new_status: TaskStatus)
        ensures
            final(self)@ == apply_update(old(self)@, task_id, new_status),
    {
        if table_contains(&self.tasks, task_id) {
            table_insert(&mut self.tasks, task_id, new_status);
        }
    }

    pub fn delete_task(&mut self, task_id: u64)
        ensures
            final(self)@ == old(self)@.remove(task_id),
    {
        table_remove(&mut self.tasks, task_id);
    }

    pub fn delete_tasks(&mut self, task_ids: Vec<u64>)
        ensures
            final(self)@ == old(self)@.remove_keys(task_ids@.to_set()),
    {
        let mut i: usize = 0;
        while i < task_ids.len()
            invariant
                i <= task_ids.len(),
                self@ == old(self)@.remove_keys(task_ids@.take(i as int).to_set()),
            decreases task_ids.len() - i,
        {
            self.delete_task(task_ids[i]);
            assert(task_ids@.take(i + 1) == task_ids@.take(i as int).push(task_ids@[i as int]));
            assert forall|k: u64| #[trigger] task_ids@.take(i + 1).contains(k)
                == (task_ids@.take(i as int).contains(k) || k == task_ids@[i as int]) by {
                lemma_push_contains(task_ids@.take(i as int), task_ids@[i as int], k);
            }
            assert(task_ids@.take(i + 1).to_set() =~= task_ids@.take(i as int).to_set().insert(task_ids@[i as int]));
            assert(self@ =~= old(self)@.remove_keys(task_ids@.take(i + 1).to_set()));
            i = i + 1;
        }
        assert(task_ids@.take(task_ids.len() as int) == task_ids@);
    }
}

/// A registered task reads back as pending in its first attempt.
pub proof fn lemma_registered_reads_pending(m: Map<u64, TaskStatus>, id: u64)
    ensures
        lookup(m.insert(id, registered()), id) == Some(registered()),
        lookup(register_all(m, seq![id]), id) == Some(registered()),
{
    assert(seq![id][0] == id);
}

/// Registering a batch registers each of its ids and leaves every other
/// entry as it was.
pub proof fn lemma_register_all(m: Map<u64, TaskStatus>, ids: Seq<u64>, k: u64)
    ensures
        ids.contains(k) ==> lookup(register_all(m, ids), k) == Some(registered()),
        !ids.contains(k) ==> lookup(register_all(m, ids), k) == lookup(m, k),
{
}

/// What an update writes to a registered task is what the next read gives.
pub proof fn lemma_read_after_update(m: Map<u64, TaskStatus>, id: u64, status: TaskStatus)
    requires
        m.contains_key(id),
    ensures
        lookup(apply_update(m, id, status), id) == Some(status),
        forall|k: u64| k != id ==> lookup(apply_update(m, id, status), k) == #[trigger] lookup(m, k),
{
}

/// An update of an unknown task changes nothing: it does not register it.
pub proof fn lemma_update_unknown_ignored(m: Map<u64, TaskStatus>, id: u64, status: TaskStatus)
    requires
        !m.contains_key(id),
    ensures
        apply_update(m, id, status) == m,
        lookup(apply_update(m, id, status), id) is None,
{
}

/// A final status is read once: the read after it finds nothing. A status
/// that is not final stays in the registry.
pub proof fn lemma_final_status_read_once(m: Map<u64, TaskStatus>, id: u64)
    ensures
        (lookup(m, id) matches Some(st) && st.status_type.spec_finished()) ==> lookup(after_read(m, id), id) is None,
        (lookup(m, id) matches Some(st) && !st.status_type.spec_finished()) ==> after_read(m, id) == m,
        lookup(m, id) is None ==> after_read(m, id) == m,
{
}

/// A deleted task reads as unknown.
pub proof fn lemma_read_after_delete(m: Map<u64, TaskStatus>, id: u64)
    ensures
        lookup(m.remove(id), id) is None,
{
}

/// A lookup finds exactly the entry the table has under the id.
pub proof fn lemma_lookup_finds_entry(m: Map<u64, TaskStatus>, id: u64)
    ensures
        m.contains_key(id) ==> lookup(m, id) == Some(m[id]),
        !m.contains_key(id) ==> lookup(m, id) is None,
{
}

/// A task is registered as pending in its first attempt, and registering
/// one task leaves every other entry as it was.
pub proof fn lemma_registration_is_pending(m: Map<u64, TaskStatus>, id: u64, k: u64)
    ensures
        registered() == (TaskStatus { status_type: TaskStatusType::Pending, retries: 0 }),
        lookup(m.insert(id, registered()), id) == Some(
            TaskStatus { status_type: TaskStatusType::Pending, retries: 0 },
        ),
        k != id ==> lookup(m.insert(id, registered()), k) == lookup(m, k),
{
}

/// Registering a batch registers each of its ids as pending in its first
/// attempt (whatever it held before), registers nothing else, and leaves
/// every other entry as it was.
pub proof fn lemma_register_all_entries(m: Map<u64, TaskStatus>, ids: Seq<u64>, k: u64)
    ensures
        ids.contains(k) ==> lookup(register_all(m, ids), k) == Some(
            TaskStatus { status_type: TaskStatusType::Pending, retries: 0 },
        ),
        !ids.contains(k) ==> lookup(register_all(m, ids), k) == lookup(m, k),
        register_all(m, ids).dom() == m.dom().union(ids.to_set()),
{
    assert(register_all(m, ids).dom() =~= m.dom().union(ids.to_set()));
}

/// Reading one task's status changes no other task's entry: a final status
/// removes exactly the entry read, any other status removes nothing.
pub proof fn lemma_read_touches_only_that_task(m: Map<u64, TaskStatus>, id: u64, k: u64)
    ensures
        k != id ==> lookup(after_read(m, id), k) == lookup(m, k),
        (m.contains_key(id) && (m[id].status_type is Completed || m[id].status_type is Failed))
            ==> after_read(m, id) == m.remove(id),
        !(m.contains_key(id) && (m[id].status_type is Completed || m[id].status_type is Failed))
            ==> after_read(m, id) == m,
{
}

/// An update changes the entry of the task it names, and no other.
pub proof fn lemma_update_touches_only_that_task(m: Map<u64, TaskStatus>, id: u64, status: TaskStatus, k: u64)
    ensures
        m.contains_key(id) ==> lookup(apply_update(m, id, status), id) == Some(status),
        !m.contains_key(id) ==> lookup(apply_update(m, id, status), id) is None,
        k != id ==> lookup(apply_update(m, id, status), k) == lookup(m, k),
        apply_update(m, id, status).dom() == m.dom(),
{
    assert(apply_update(m, id, status).dom() =~= m.dom());
}

} // verus!
