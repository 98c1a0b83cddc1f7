use vstd::prelude::*;

use crate::executor::{wake_spec, Executor};

verus! {

/// A wake capability: bound to exactly one task, it makes that task
/// runnable again when invoked. Copying it is free.
#[derive(Debug, Clone, Copy, PartialEq, Eq)]
pub struct Waker {
    task: usize,
}

impl Waker {
    pub closed spec fn spec_task(&self) -> usize {
        self.task
    }

    /// The capability bound to the task `task`.
    pub fn new(task: usize) -> (r: Waker)
        ensures
            r.spec_task() == task,
    {
        Waker { task }
    }

    /// The task that this capability wakes.
    pub fn task(&self) -> (r: usize)
        ensures
            r == self.spec_task(),
    {
        self.task
    }

    /// Makes the task runnable again. Once the task has finished this does
    /// nothing.
    pub fn wake(&self, executor: &mut Executor)
        requires
            old(executor).wf(),
        ensures
            final(executor).wf(),
            final(executor)@ == wake_spec(old(executor)@, self.spec_task()),
    {
        executor.wake(self);
    }
}

/// A task of an executor, named by its identifier.
#[derive(Debug, Clone, Copy, PartialEq, Eq)]
pub struct Task {
    id: usize,
}

impl Task {
    pub closed spec fn spec_id(&self) -> usize {
        self.id
    }

    pub fn new(id: usize) -> (r: Task)
        ensures
            r.spec_id() == id,
    {
        Task { id }
    }

    pub fn id(&self) -> (r: usize)
        ensures
            r == self.spec_id(),
    {
        self.id
    }

    /// Makes the task runnable again, as its wake capability does.
    pub fn schedule(&self, executor: &mut Executor)
        requires
            old(executor).wf(),
        ensures
            final(executor).wf(),
            final(executor)@ == wake_spec(old(executor)@, self.spec_id()),
    {
        let w = self.waker();
        executor.wake(&w);
    }

    /// The wake capability bound to the task.
    pub fn waker(&self) -> (r: Waker)
        ensures
            r.spec_task() == self.spec_id(),
    {
        Waker { task: self.id }
    }
}

/// What a suspendable operation is polled with: the wake capability of the
/// task that polls it.
#[derive(Debug, Clone, Copy)]
pub struct Context {
    waker: Waker,
}

impl Context {
    pub closed spec fn spec_waker(&self) -> Waker {
        self.waker
    }

    pub fn from_waker(waker: Waker) -> (r: Context)
        ensures
            r.spec_waker() == waker,
    {
        Context { waker }
    }

    pub fn waker(&self) -> (r: Waker)
        ensures
            r == self.spec_waker(),
    {
        self.waker
    }
}

} // verus!
