//! Tasks of the cooperative executor and their identifiers.

use vstd::prelude::*;

verus! {

/// The source of task identifiers: a counter that hands out each number once
/// before it wraps around.
pub struct TaskIds {
    next: u64,
}

impl TaskIds {
    /// The identifier that is handed out next.
    pub closed spec fn next(self) -> u64 {
        self.next
    }

    /// A source that starts at 0.
    pub fn new() -> (ids: TaskIds)
        ensures
            ids.next() == 0,
    {
        TaskIds { next: 0 }
    }
}

/// The identifier of a task.
#[derive(Debug, Clone, Copy, PartialEq, Eq, PartialOrd, Ord, Hash, Structural)]
pub struct TaskId(u64);

impl TaskId {
    /// The number of the identifier.
    pub closed spec fn number(self) -> u64 {
        self.0
    }

    /// Takes a fresh identifier from `ids`: the numbers are handed out in
    /// increasing order, one by one.
    pub fn new(ids: &mut TaskIds) -> (id: TaskId)
        ensures
            id.number() == old(ids).next(),
            final(ids).next() == if old(ids).next() == u64::MAX {
                0
            } else {
                (old(ids).next() + 1) as u64
            },
    {
        let number = ids.next;
        ids.next = if number == u64::MAX {
            0
        } else {
            number + 1
        };
        TaskId(number)
    }

    /// The number of the identifier.
    pub fn as_u64(&self) -> (number: u64)
        ensures
            number == self.number(),
    {
        self.0
    }
}

/// A task that can be run by the executor: an identifier and the suspended
/// work, which the caller resumes.
pub struct Task<F> {
    pub id: TaskId,
    future: F,
}

impl<F> Task<F> {
    /// The identifier of the task.
    pub closed spec fn ident(self) -> TaskId {
        self.id
    }

    /// The suspended work of the task.
    pub closed spec fn work(self) -> F {
        self.future
    }

    /// The identifier of the task.
    pub fn id(&self) -> (id: TaskId)
        ensures
            id == self.ident(),
    {
        self.id
    }

    /// A task for `future`, with a fresh identifier from `ids`.
    pub fn new(future: F, ids: &mut TaskIds) -> (task: Task<F>)
        ensures
            task.ident().number() == old(ids).next(),
            task.work() == future,
            final(ids).next() == if old(ids).next() == u64::MAX {
                0
            } else {
                (old(ids).next() + 1) as u64
            },
    {
        Task { id: TaskId::new(ids), future }
    }

    /// The suspended work, for the caller to resume.
    pub fn future_mut(&mut self) -> (future: &mut F)
        ensures
            *future == old(self).work(),
            final(self).work() == *final(future),
            final(self).ident() == old(self).ident(),
    {
        &mut self.future
    }

    /// Gives up the task for its suspended work.
    pub fn into_future(self) -> (future: F)
        ensures
            future == self.work(),
    {
        self.future
    }
}

} // verus!
