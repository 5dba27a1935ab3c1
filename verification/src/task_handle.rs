use vstd::prelude::*;

use crate::task::TaskError;

verus! {

/// What one task of a batch showed when the batch was polled.
#[derive(Debug)]
pub enum HandleState {
    /// The task had already finished before this poll; it is not polled again.
    Finished,
    /// The task is still running.
    Pending,
    /// The task finished now with this result.
    Ready(Result<(), TaskError>),
}

/// The index of the first task that is still running, or the number of
/// tasks if none is.
pub open spec fn first_pending(states: Seq<HandleState>) -> nat
    decreases states.len(),
{
    if states.len() == 0 {
        0
    } else if states[0] is Pending {
        0
    } else {
        1 + first_pending(states.drop_first())
    }
}

/// The errors of the tasks that finished with one, in order.
pub open spec fn errors_of(states: Seq<HandleState>) -> Seq<TaskError>
    decreases states.len(),
{
    if states.len() == 0 {
        Seq::empty()
    } else {
        let rest = errors_of(states.drop_last());
        match states.last() {
            HandleState::Ready(Err(e)) => rest.push(e),
            _ => rest,
        }
    }
}

/// The result of a batch whose tasks all finished: success if none failed,
/// else the errors.
pub open spec fn batch_result(errors: Seq<TaskError>) -> Result<(), Seq<TaskError>> {
    if errors.len() == 0 {
        Ok(())
    } else {
        Err(errors)
    }
}

/// The errors a batch of tasks has collected over its polls.
pub struct BatchErrors {
    errors: Vec<TaskError>,
}

impl View for BatchErrors {
    type V = Seq<TaskError>;

    closed spec fn view(&self) -> Seq<TaskError> {
        self.errors@
    }
}

proof fn lemma_first_pending_step(states: Seq<HandleState>, i: int)
    requires
        0 <= i < states.len(),
        forall|j: int| 0 <= j < i ==> !(#[trigger] states[j] is Pending),
    ensures
        states[i] is Pending ==> first_pending(states) == i,
        first_pending(states) >= i,
    decreases i,
{
    if i > 0 {
        assert forall|j: int| 0 <= j < i - 1 implies !(#[trigger] states.drop_first()[j] is Pending) by {
            assert(states.drop_first()[j] == states[j + 1]);
        }
        lemma_first_pending_step(states.drop_first(), i - 1);
    }
}

proof fn lemma_first_pending_none(states: Seq<HandleState>)
    requires
        forall|j: int| 0 <= j < states.len() ==> !(#[trigger] states[j] is Pending),
    ensures
        first_pending(states) == states.len(),
    decreases states.len(),
{
    if states.len() > 0 {
        assert forall|j: int| 0 <= j < states.len() - 1 implies !(#[trigger] states.drop_first()[j] is Pending) by {
            assert(states.drop_first()[j] == states[j + 1]);
        }
        lemma_first_pending_none(states.drop_first());
    }
}

impl BatchErrors {
    pub fn new() -> (r: Self)
        ensures
            r@ == Seq::<TaskError>::empty(),
    {
        BatchErrors { errors: Vec::new() }
    }

    fn copy_errors(&self) -> (r: Vec<TaskError>)
        ensures
            r@ == self@,
    {
        let mut out: Vec<TaskError> = Vec::new();
        let mut i: usize = 0;
        while i < self.errors.len()
            invariant
                i <= self.errors@.len(),
                out@ == self.errors@.take(i as int),
            decreases self.errors@.len() - i,
        {
            out.push(self.errors[i].clone());
            assert(self.errors@.take(i + 1) == self.errors@.take(i as int).push(self.errors@[i as int]));
            i = i + 1;
        }
        assert(self.errors@.take(self.errors@.len() as int) == self.errors@);
        out
    }

    /// One poll of the batch: the tasks are looked at in order up to the
    /// first that is still running; the errors of those that finished now
    /// are collected. The batch is ready when no task is running: with
    /// success if no error was ever collected, else with all the errors.
    pub fn poll_round(&mut self, states: Vec<HandleState>) -> (r: Option<Result<(), Vec<TaskError>>>)
        ensures
            final(self)@ == old(self)@ + errors_of(states@.take(first_pending(states@) as int)),
            first_pending(states@) < states@.len() ==> r is None,
            first_pending(states@) == states@.len() ==> (r matches Some(res) && match res {
                Ok(_) => batch_result(final(self)@) == Ok::<(), Seq<TaskError>>(()),
                Err(v) => batch_result(final(self)@) == Err::<(), Seq<TaskError>>(v@),
            }),
    {
        let ghost start = self@;
        let mut i: usize = 0;
        while i < states.len()
            invariant
                i <= states@.len(),
                start == old(self)@,
                forall|j: int| 0 <= j < i ==> !(#[trigger] states@[j] is Pending),
                self@ == start + errors_of(states@.take(i as int)),
            decreases states@.len() - i,
        {
            assert(states@.take(i + 1).drop_last() == states@.take(i as int));
            assert(states@.take(i + 1).last() == states@[i as int]);
            match &states[i] {
                HandleState::Pending => {
                    proof {
                        assert(states@[i as int] is Pending);
                        lemma_first_pending_step(states@, i as int);
                        assert(first_pending(states@) == i);
                    }
                    return None;
                },
                HandleState::Ready(Err(e)) => {
                    self.errors.push(e.clone());
                },
                _ => {},
            }
            i = i + 1;
        }
        proof {
            lemma_first_pending_none(states@);
            assert(states@.take(states@.len() as int) == states@);
        }
        if self.errors.len() == 0 {
            Some(Ok(()))
        } else {
            Some(Err(self.copy_errors()))
        }
    }
}

/// Whether a task finished now with an error.
pub open spec fn failed_now(h: HandleState) -> bool {
    h matches HandleState::Ready(Err(_))
}

/// A settled batch succeeds exactly when no error was collected, and
/// otherwise fails with all the collected errors, in order.
pub proof fn lemma_batch_result(errors: Seq<TaskError>)
    ensures
        batch_result(errors) is Ok <==> errors.len() == 0,
        errors.len() > 0 ==> batch_result(errors) == Err::<(), Seq<TaskError>>(errors),
{
}

/// The errors of a sequence of polled tasks are those of its parts, in
/// order; a task that failed now contributes its error, any other nothing.
pub proof fn lemma_errors_of_parts(a: Seq<HandleState>, b: Seq<HandleState>)
    ensures
        errors_of(a + b) == errors_of(a) + errors_of(b),
        errors_of(Seq::empty()) == Seq::<TaskError>::empty(),
    decreases b.len(),
{
    if b.len() == 0 {
        assert(a + b =~= a);
        assert(errors_of(b) =~= Seq::<TaskError>::empty());
    } else {
        lemma_errors_of_parts(a, b.drop_last());
        assert((a + b).drop_last() =~= a + b.drop_last());
        assert((a + b).last() == b.last());
    }
}

/// One polled task: its error if it failed now, nothing otherwise.
pub proof fn lemma_errors_of_one(h: HandleState)
    ensures
        h matches HandleState::Ready(Err(e)) ==> errors_of(seq![h]) == seq![e],
        !failed_now(h) ==> errors_of(seq![h]) == Seq::<TaskError>::empty(),
{
    assert(seq![h].drop_last() =~= Seq::<HandleState>::empty());
    assert(errors_of(Seq::<HandleState>::empty()) =~= Seq::<TaskError>::empty());
    assert(seq![h].last() == h);
    match h {
        HandleState::Ready(Err(e)) => {
            assert(errors_of(seq![h]) =~= seq![e]);
        },
        _ => {
            assert(errors_of(seq![h]) =~= Seq::<TaskError>::empty());
        },
    }
}

/// The errors collected are as many as the tasks that failed now, and none
/// is collected where none failed.
pub proof fn lemma_errors_count(states: Seq<HandleState>)
    ensures
        errors_of(states).len() <= states.len(),
        (forall|i: int| 0 <= i < states.len() ==> !failed_now(#[trigger] states[i])) ==> errors_of(states).len() == 0,
        (forall|i: int| 0 <= i < states.len() ==> failed_now(#[trigger] states[i])) ==> errors_of(states).len()
            == states.len(),
    decreases states.len(),
{
    if states.len() > 0 {
        lemma_errors_count(states.drop_last());
        assert(states.last() == states[states.len() - 1]);
        assert forall|i: int| 0 <= i < states.drop_last().len() implies #[trigger] states.drop_last()[i] == states[i] by {}
    }
}

/// The tasks looked at in a poll are those before the first one still
/// running: none of them is running, and the one where the poll stops is.
pub proof fn lemma_first_pending_stops_at_running(states: Seq<HandleState>)
    ensures
        first_pending(states) <= states.len(),
        forall|j: int| 0 <= j < first_pending(states) ==> !(#[trigger] states[j] is Pending),
        first_pending(states) < states.len() ==> states[first_pending(states) as int] is Pending,
    decreases states.len(),
{
    if states.len() > 0 && !(states[0] is Pending) {
        let rest = states.drop_first();
        lemma_first_pending_stops_at_running(rest);
        assert forall|j: int| 0 <= j < first_pending(states) implies !(#[trigger] states[j] is Pending) by {
            if j > 0 {
                assert(states[j] == rest[j - 1]);
            }
        }
        if first_pending(states) < states.len() {
            assert(states[first_pending(states) as int] == rest[first_pending(rest) as int]);
        }
    }
}

} // verus!
