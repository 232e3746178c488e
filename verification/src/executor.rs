//! The cooperative executor: one ready queue, polled in the order in which
//! tasks became ready, and the tasks that wait to be woken.
//!
//! The executor decides which task runs next and what becomes of it; the
//! caller resumes the task it is handed and reports how it ended.

use std::collections::VecDeque;
use vstd::prelude::*;
use crate::task::{Task, TaskId};

verus! {

/// What an executor is, to its users.
pub struct ExecutorState {
    /// The tasks that are ready to be polled, in the order in which they
    /// became ready.
    pub ready: Seq<TaskId>,
    /// The tasks that reported "not ready" and wait for their waker.
    pub suspended: Seq<TaskId>,
    /// The task that is being polled, if one is.
    pub running: Option<TaskId>,
    /// Whether the waker of the task that is being polled fired meanwhile.
    pub woken: bool,
}

impl ExecutorState {
    /// Whether the executor holds a task with this identifier.
    pub open spec fn is_live(self, id: TaskId) -> bool {
        self.ready.contains(id) || self.suspended.contains(id) || self.running == Some(id)
    }

    /// Whether no identifier is held twice.
    pub open spec fn is_distinct(self) -> bool {
        &&& self.ready.no_duplicates()
        &&& self.suspended.no_duplicates()
        &&& forall|id: TaskId| !(self.ready.contains(id) && self.suspended.contains(id))
        &&& self.running matches Some(id) ==> !self.ready.contains(id) && !self.suspended.contains(
            id,
        )
    }
}

/// The executor after a task with identifier `id` is spawned: the task joins
/// the back of the ready queue, unless the identifier is already held.
pub open spec fn spawned(state: ExecutorState, id: TaskId) -> ExecutorState {
    if state.is_live(id) {
        state
    } else {
        ExecutorState { ready: state.ready.push(id), ..state }
    }
}

/// The executor after the next ready task is handed out for polling: the
/// front of the ready queue, unless a task is still out or none is ready.
pub open spec fn taken(state: ExecutorState) -> ExecutorState {
    if state.running is None && state.ready.len() > 0 {
        ExecutorState {
            ready: state.ready.drop_first(),
            running: Some(state.ready[0]),
            woken: false,
            ..state
        }
    } else {
        state
    }
}

/// The executor after the waker of task `id` fires: a suspended task joins the
/// back of the ready queue, the task that is being polled is marked to be
/// polled again, and anything else is left as it is.
pub open spec fn woken(state: ExecutorState, id: TaskId) -> ExecutorState {
    if state.running == Some(id) {
        ExecutorState { woken: true, ..state }
    } else if state.suspended.contains(id) {
        ExecutorState {
            ready: state.ready.push(id),
            suspended: state.suspended.remove(state.suspended.index_of_first(id)->0),
            ..state
        }
    } else {
        state
    }
}

/// The executor after the task that was being polled comes back: a task that
/// completed is gone for good; one that is not ready waits for its waker,
/// unless the waker fired while it was out, in which case it joins the back
/// of the ready queue.
pub open spec fn finished(state: ExecutorState, completed: bool) -> ExecutorState {
    match state.running {
        None => state,
        Some(id) => if completed {
            ExecutorState { running: None, woken: false, ..state }
        } else if state.woken {
            ExecutorState { ready: state.ready.push(id), running: None, woken: false, ..state }
        } else {
            ExecutorState {
                suspended: state.suspended.push(id),
                running: None,
                woken: false,
                ..state
            }
        },
    }
}

/// The identifiers of a sequence of tasks, in order.
pub open spec fn idents<F>(tasks: Seq<Task<F>>) -> Seq<TaskId> {
    tasks.map_values(|task: Task<F>| task.ident())
}

/// A single-threaded executor of cooperative tasks.
pub struct Executor<F> {
    ready: VecDeque<Task<F>>,
    suspended: Vec<Task<F>>,
    running: Option<TaskId>,
    woken: bool,
}

impl<F> View for Executor<F> {
    type V = ExecutorState;

    open spec fn view(&self) -> ExecutorState {
        ExecutorState {
            ready: idents(self.ready_tasks()),
            suspended: idents(self.suspended_tasks()),
            running: self.running_task(),
            woken: self.was_woken(),
        }
    }
}

impl<F> Executor<F> {
    /// The tasks that are ready to be polled, in the order in which they
    /// became ready.
    pub closed spec fn ready_tasks(self) -> Seq<Task<F>> {
        self.ready@
    }

    /// The tasks that wait for their waker.
    pub closed spec fn suspended_tasks(self) -> Seq<Task<F>> {
        self.suspended@
    }

    /// The identifier of the task that is being polled, if one is.
    pub closed spec fn running_task(self) -> Option<TaskId> {
        self.running
    }

    /// Whether the waker of the task that is being polled fired meanwhile.
    pub closed spec fn was_woken(self) -> bool {
        self.woken
    }
}

/// The index of the first task of `tasks` with identifier `id`.
fn position<F>(tasks: &Vec<Task<F>>, id: TaskId) -> (result: Option<usize>)
    ensures
        match result {
            Some(index) => idents(tasks@).index_of_first(id) == Some(index as int) && index
                < tasks@.len() && tasks@[index as int].ident() == id && idents(tasks@).contains(id),
            None => !idents(tasks@).contains(id),
        },
{
    let ghost ids = idents(tasks@);
    let mut index: usize = 0;
    while index < tasks.len()
        invariant
            index <= tasks@.len(),
            ids == idents(tasks@),
            forall|j: int| 0 <= j < index ==> ids[j] != id,
        decreases tasks@.len() - index,
    {
        if tasks[index].id() == id {
            proof {
                assert(ids[index as int] == id);
                ids.index_of_first_ensures(id);
            }
            return Some(index);
        }
        index += 1;
    }
    None
}

/// Whether a task of `tasks` has identifier `id`.
fn queue_holds<F>(tasks: &VecDeque<Task<F>>, id: TaskId) -> (held: bool)
    ensures
        held == idents(tasks@).contains(id),
{
    let ghost ids = idents(tasks@);
    let mut index: usize = 0;
    while index < tasks.len()
        invariant
            index <= tasks@.len(),
            ids == idents(tasks@),
            forall|j: int| 0 <= j < index ==> ids[j] != id,
        decreases tasks@.len() - index,
    {
        if tasks[index].id() == id {
            assert(ids[index as int] == id);
            return true;
        }
        index += 1;
    }
    false
}

impl<F> Executor<F> {
    /// An executor without tasks.
    pub fn new() -> (executor: Executor<F>)
        ensures
            executor@ == (ExecutorState {
                ready: Seq::<TaskId>::empty(),
                suspended: Seq::<TaskId>::empty(),
                running: None,
                woken: false,
            }),
    {
        let executor = Executor {
            ready: VecDeque::new(),
            suspended: Vec::new(),
            running: None,
            woken: false,
        };
        assert(idents(executor.ready@) == Seq::<TaskId>::empty());
        assert(idents(executor.suspended@) == Seq::<TaskId>::empty());
        executor
    }

    /// Schedules a new task behind those that are ready. A task whose
    /// identifier the executor already holds is handed back.
    pub fn spawn(&mut self, task: Task<F>) -> (result: Result<(), Task<F>>)
        ensures
            final(self)@ == spawned(old(self)@, task.ident()),
            final(self).suspended_tasks() == old(self).suspended_tasks(),
            old(self)@.is_live(task.ident()) ==> result == Err::<(), Task<F>>(task) && final(self).ready_tasks() == old(self).ready_tasks(),
            !old(self)@.is_live(task.ident()) ==> result is Ok && final(self).ready_tasks() == old(self).ready_tasks().push(task),
    {
        let id = task.id();
        let running = match self.running {
            Some(running) => running == id,
            None => false,
        };
        let queued = queue_holds(&self.ready, id);
        let parked = position(&self.suspended, id).is_some();
        if running || queued || parked {
            return Err(task);
        }
        self.ready.push_back(task);
        assert(idents(self.ready@) == idents(old(self).ready@).push(id));
        Ok(())
    }

    /// Hands out the task to poll next: the one that has been ready longest.
    /// Nothing is handed out while a task is still out, or when none is ready.
    pub fn take_ready(&mut self) -> (result: Option<Task<F>>)
        ensures
            final(self)@ == taken(old(self)@),
            final(self).suspended_tasks() == old(self).suspended_tasks(),
            match result {
                Some(task) => old(self)@.running is None && old(self)@.ready.len() > 0 && task
                    == old(self).ready_tasks()[0] && final(self).ready_tasks() == old(self).ready_tasks().drop_first(),
                None => (old(self)@.running is Some || old(self)@.ready.len() == 0) && final(self).ready_tasks() == old(self).ready_tasks(),
            },
    {
        if self.running.is_some() {
            return None;
        }
        match self.ready.pop_front() {
            Some(task) => {
                self.running = Some(task.id());
                self.woken = false;
                assert(self.ready@ == old(self).ready@.drop_first());
                assert(idents(self.ready@) == idents(old(self).ready@).drop_first());
                Some(task)
            },
            None => None,
        }
    }

    /// Takes the task back that was handed out for polling. A task that
    /// completed is dropped; one that is not ready is parked until its waker
    /// fires, or queued again at once if its waker fired while it was out.
    pub fn finish(&mut self, task: Task<F>, completed: bool)
        requires
            old(self)@.running == Some(task.ident()),
        ensures
            final(self)@ == finished(old(self)@, completed),
            final(self).ready_tasks() == if !completed && old(self)@.woken {
                old(self).ready_tasks().push(task)
            } else {
                old(self).ready_tasks()
            },
            final(self).suspended_tasks() == if !completed && !old(self)@.woken {
                old(self).suspended_tasks().push(task)
            } else {
                old(self).suspended_tasks()
            },
    {
        self.running = None;
        if completed {
            self.woken = false;
        } else if self.woken {
            self.woken = false;
            self.ready.push_back(task);
            assert(idents(self.ready@) == idents(old(self).ready@).push(task.ident()));
        } else {
            self.suspended.push(task);
            assert(idents(self.suspended@) == idents(old(self).suspended@).push(task.ident()));
        }
    }

    /// Marks task `id` as ready, for its waker. A suspended task joins the
    /// back of the ready queue; the task that is being polled is polled again
    /// once it comes back; a task that is already ready, or is not held, is
    /// not touched.
    pub fn wake(&mut self, id: TaskId)
        ensures
            final(self)@ == woken(old(self)@, id),
            final(self)@.ready.len() > old(self)@.ready.len() ==> final(self).ready_tasks() == old(self).ready_tasks().push(
                old(self).suspended_tasks()[old(self)@.suspended.index_of_first(id)->0],
            ) && final(self).suspended_tasks() == old(self).suspended_tasks().remove(
                old(self)@.suspended.index_of_first(id)->0,
            ),
            final(self)@.ready.len() <= old(self)@.ready.len() ==> final(self).ready_tasks() == old(self).ready_tasks() && final(self).suspended_tasks() == old(self).suspended_tasks(),
    {
        let running = match self.running {
            Some(running) => running == id,
            None => false,
        };
        if running {
            self.woken = true;
            return ;
        }
        match position(&self.suspended, id) {
            Some(index) => {
                let task = self.suspended.remove(index);
                self.ready.push_back(task);
                assert(idents(self.suspended@) == idents(old(self).suspended@).remove(index as int));
                assert(idents(self.ready@) == idents(old(self).ready@).push(id));
            },
            None => {},
        }
    }

    /// Whether no task is ready: the processor can halt until the next
    /// interrupt.
    pub fn is_idle(&self) -> (idle: bool)
        ensures
            idle == (self@.ready.len() == 0),
    {
        self.ready.len() == 0
    }

    /// Number of tasks the executor holds, the one that is out included.
    pub fn task_count(&self) -> (count: usize)
        requires
            self@.ready.len() + self@.suspended.len() + 1 <= usize::MAX,
        ensures
            count == self@.ready.len() + self@.suspended.len() + (if self@.running is Some {
                1nat
            } else {
                0nat
            }),
    {
        let out: usize = if self.running.is_some() {
            1
        } else {
            0
        };
        self.ready.len() + self.suspended.len() + out
    }
}

/// Tasks are polled in the order in which they became ready: whatever
/// happens, the tasks that are ready keep their places, a task that becomes
/// ready joins at the back, and the task that is handed out is the one at the
/// front. In particular a waker that fires for a task behind others does not
/// move it ahead of them.
pub proof fn lemma_ready_order_is_kept(state: ExecutorState, id: TaskId, completed: bool)
    ensures
        state.ready.is_prefix_of(spawned(state, id).ready),
        state.ready.is_prefix_of(woken(state, id).ready),
        state.ready.is_prefix_of(finished(state, completed).ready),
        spawned(state, id).ready.len() <= state.ready.len() + 1,
        woken(state, id).ready.len() <= state.ready.len() + 1,
        finished(state, completed).ready.len() <= state.ready.len() + 1,
        taken(state).running != state.running ==> taken(state).running == Some(state.ready[0])
            && taken(state).ready == state.ready.drop_first(),
        state.ready.contains(id) ==> woken(state, id).ready == state.ready || state.running
            == Some(id) || state.suspended.contains(id),
{
}

/// No step makes the executor hold an identifier twice.
pub proof fn lemma_steps_keep_ids_distinct(state: ExecutorState, id: TaskId, completed: bool)
    requires
        state.is_distinct(),
    ensures
        spawned(state, id).is_distinct(),
        taken(state).is_distinct(),
        woken(state, id).is_distinct(),
        finished(state, completed).is_distinct(),
{
    lemma_push_keeps_distinct(state.ready, id);
    if state.running is None && state.ready.len() > 0 {
        lemma_drop_first_keeps_distinct(state.ready);
    }
    if state.suspended.contains(id) && state.running != Some(id) {
        state.suspended.index_of_first_ensures(id);
        let at = state.suspended.index_of_first(id)->0;
        lemma_remove_keeps_distinct(state.suspended, at);
        let after = woken(state, id);
        assert(!state.ready.contains(id));
        assert(after.ready == state.ready.push(id));
        assert(after.suspended == state.suspended.remove(at));
        assert(after.ready.no_duplicates());
        assert forall|other: TaskId| !(after.ready.contains(other) && after.suspended.contains(
            other,
        )) by {
            if after.suspended.contains(other) {
                assert(state.suspended.contains(other));
                assert(other != id);
                assert(!state.ready.contains(other));
            }
        }
    }
    if let Some(running) = state.running {
        lemma_push_keeps_distinct(state.ready, running);
        lemma_push_keeps_distinct(state.suspended, running);
    }
}

/// A task is never polled again after it completed: once the executor has
/// taken a completed task back, it holds the task no more, its waker has no
/// effect, and no later step hands it out.
pub proof fn lemma_completed_task_is_gone(state: ExecutorState, id: TaskId, other: TaskId)
    requires
        state.is_distinct(),
        state.running == Some(id),
    ensures
        ({
            let after = finished(state, true);
            &&& !after.is_live(id)
            &&& woken(after, id) == after
            &&& taken(after).running != Some(id)
            &&& other != id ==> !woken(after, other).is_live(id)
            &&& !finished(taken(after), false).is_live(id)
        }),
{
    let after = finished(state, true);
    if after.suspended.contains(other) {
        after.suspended.index_of_first_ensures(other);
    }
}

/// Appending an identifier that is not held keeps the identifiers distinct,
/// and the appended one is then the only new one.
proof fn lemma_push_keeps_distinct(ids: Seq<TaskId>, id: TaskId)
    requires
        ids.no_duplicates(),
    ensures
        !ids.contains(id) ==> ids.push(id).no_duplicates(),
        forall|other: TaskId| ids.push(id).contains(other) <==> ids.contains(other) || other == id,
{
    assert forall|other: TaskId| ids.push(id).contains(other) implies ids.contains(other) || other
        == id by {
        let index = choose|index: int| 0 <= index < ids.push(id).len() && ids.push(id)[index] == other;
        if index < ids.len() {
            assert(ids[index] == other);
        }
    }
    assert forall|other: TaskId| ids.contains(other) || other == id implies ids.push(id).contains(
        other,
    ) by {
        if ids.contains(other) {
            let index = choose|index: int| 0 <= index < ids.len() && ids[index] == other;
            assert(ids.push(id)[index] == other);
        } else {
            assert(ids.push(id)[ids.len() as int] == other);
        }
    }
}

/// Dropping the first identifier keeps the others distinct, and the first is
/// then no longer among them.
proof fn lemma_drop_first_keeps_distinct(ids: Seq<TaskId>)
    requires
        ids.no_duplicates(),
        ids.len() > 0,
    ensures
        ids.drop_first().no_duplicates(),
        !ids.drop_first().contains(ids[0]),
        forall|other: TaskId| ids.drop_first().contains(other) ==> ids.contains(other),
{
    assert forall|other: TaskId| ids.drop_first().contains(other) implies ids.contains(other)
        && other != ids[0] by {
        let index = choose|index: int|
            0 <= index < ids.drop_first().len() && ids.drop_first()[index] == other;
        assert(ids[index + 1] == other);
    }
}

/// Removing one identifier keeps the others distinct, and the removed one is
/// then no longer among them.
proof fn lemma_remove_keeps_distinct(ids: Seq<TaskId>, at: int)
    requires
        ids.no_duplicates(),
        0 <= at < ids.len(),
    ensures
        ids.remove(at).no_duplicates(),
        !ids.remove(at).contains(ids[at]),
        forall|other: TaskId| ids.remove(at).contains(other) ==> ids.contains(other),
{
    assert forall|other: TaskId| ids.remove(at).contains(other) implies ids.contains(other)
        && other != ids[at] by {
        let index = choose|index: int| 0 <= index < ids.remove(at).len() && ids.remove(at)[index]
            == other;
        if index < at {
            assert(ids[index] == other);
        } else {
            assert(ids[index + 1] == other);
        }
    }
}

} // verus!
