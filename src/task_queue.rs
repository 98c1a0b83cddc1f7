use vstd::prelude::*;

use std::collections::VecDeque;

verus! {

broadcast use vstd::std_specs::vecdeque::group_vec_dequeue_axioms;

/// The capacity that a queue has unless another is asked for.
pub const DEFAULT_CAPACITY: usize = 1024;

/// A bounded first-in first-out queue of runnable tasks, named by their
/// identifiers. A send to a full queue is refused rather than blocking: in
/// a runtime with one thread, nothing else could ever make room.
pub struct TaskQueue {
    tasks: VecDeque<usize>,
    capacity: usize,
}

impl View for TaskQueue {
    type V = Seq<usize>;

    closed spec fn view(&self) -> Seq<usize> {
        self.tasks@
    }
}

impl TaskQueue {
    pub closed spec fn spec_capacity(&self) -> nat {
        self.capacity as nat
    }

    /// An empty queue of the default capacity.
    pub fn new() -> (r: Self)
        ensures
            r@ == Seq::<usize>::empty(),
            r.spec_capacity() == DEFAULT_CAPACITY,
    {
        TaskQueue { tasks: VecDeque::new(), capacity: DEFAULT_CAPACITY }
    }

    /// An empty queue that holds at most `capacity` tasks.
    pub fn with_capacity(capacity: usize) -> (r: Self)
        ensures
            r@ == Seq::<usize>::empty(),
            r.spec_capacity() == capacity,
    {
        TaskQueue { tasks: VecDeque::new(), capacity }
    }

    pub fn capacity(&self) -> (r: usize)
        ensures
            r == self.spec_capacity(),
    {
        self.capacity
    }

    pub fn len(&self) -> (r: usize)
        ensures
            r == self@.len(),
    {
        self.tasks.len()
    }

    /// Appends `task` at the back, or hands it back when the queue is full.
    pub fn send(&mut self, task: usize) -> (r: core::result::Result<(), usize>)
        ensures
            final(self).spec_capacity() == old(self).spec_capacity(),
            old(self)@.len() < old(self).spec_capacity() ==> r is Ok && final(self)@ == old(
                self,
            )@.push(task),
            old(self)@.len() >= old(self).spec_capacity() ==> r == Err::<(), usize>(task)
                && final(self)@ == old(self)@,
    {
        if self.tasks.len() < self.capacity {
            self.tasks.push_back(task);
            Ok(())
        } else {
            Err(task)
        }
    }

    /// Takes the task at the front, if there is one, without waiting.
    pub fn try_recv(&mut self) -> (r: Option<usize>)
        ensures
            final(self).spec_capacity() == old(self).spec_capacity(),
            old(self)@.len() == 0 ==> r is None && final(self)@ == old(self)@,
            old(self)@.len() > 0 ==> r == Some(old(self)@[0]) && final(self)@ == old(
                self,
            )@.drop_first(),
    {
        let r = self.tasks.pop_front();
        proof {
            if old(self)@.len() > 0 {
                assert(self@ =~= old(self)@.drop_first());
            }
        }
        r
    }
}

} // verus!
