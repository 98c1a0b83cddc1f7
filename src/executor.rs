use vstd::prelude::*;

use crate::reactor::{dispatch_spec, Event, Reactor};
use crate::task::{Task, Waker};
use crate::task_queue::{TaskQueue, DEFAULT_CAPACITY};

verus! {

/// Where a task stands in its life.
#[derive(Debug, Clone, Copy, PartialEq, Eq)]
pub enum TaskStatus {
    /// Runnable, waiting in the queue.
    Queued,
    /// Being polled.
    Running,
    /// Being polled, and woken meanwhile: it runs again after this poll.
    Woken,
    /// Suspended, waiting for its wake capability.
    Parked,
    /// Its computation has reached its result; it never runs again.
    Done,
}

/// Why a task could not be spawned.
#[derive(Debug, Clone, Copy, PartialEq, Eq)]
pub enum SpawnError {
    /// As many unfinished tasks as the queue can hold exist already.
    QueueFull,
}

/// The abstract state of an executor: the status of each task by its
/// identifier, the runnable tasks in the order they run, and the number of
/// unfinished tasks it admits.
pub struct ExecutorState {
    pub status: Seq<TaskStatus>,
    pub queue: Seq<usize>,
    pub capacity: nat,
}

/// The number of entries of `s` equal to `k`.
pub open spec fn count(s: Seq<TaskStatus>, k: TaskStatus) -> nat
    decreases s.len(),
{
    if s.len() == 0 {
        0
    } else {
        count(s.drop_last(), k) + if s.last() == k {
            1nat
        } else {
            0nat
        }
    }
}

/// The number of tasks that have not finished.
pub open spec fn live_count(s: Seq<TaskStatus>) -> int {
    s.len() - count(s, TaskStatus::Done)
}

pub open spec fn state_wf(v: ExecutorState) -> bool {
    &&& v.queue.len() == count(v.status, TaskStatus::Queued)
    &&& v.queue.no_duplicates()
    &&& forall|i: int|
        0 <= i < v.queue.len() ==> (#[trigger] v.queue[i]) < v.status.len() && v.status[v.queue[i] as int]
            == TaskStatus::Queued
    &&& live_count(v.status) <= v.capacity
}

/// A new task, runnable, at the back of the queue.
pub open spec fn spawn_spec(v: ExecutorState) -> ExecutorState {
    ExecutorState {
        status: v.status.push(TaskStatus::Queued),
        queue: v.queue.push(v.status.len() as usize),
        capacity: v.capacity,
    }
}

/// Waking task `t`: a suspended task joins the back of the queue, one being
/// polled is marked to run again; any other wake changes nothing.
pub open spec fn wake_spec(v: ExecutorState, t: usize) -> ExecutorState {
    if t < v.status.len() {
        match v.status[t as int] {
            TaskStatus::Parked => ExecutorState {
                status: v.status.update(t as int, TaskStatus::Queued),
                queue: v.queue.push(t),
                capacity: v.capacity,
            },
            TaskStatus::Running => ExecutorState {
                status: v.status.update(t as int, TaskStatus::Woken),
                queue: v.queue,
                capacity: v.capacity,
            },
            _ => v,
        }
    } else {
        v
    }
}

/// Waking each task of `ws` in turn.
pub open spec fn wake_all_spec(v: ExecutorState, ws: Seq<Waker>) -> ExecutorState
    decreases ws.len(),
{
    if ws.len() == 0 {
        v
    } else {
        wake_spec(wake_all_spec(v, ws.drop_last()), ws.last().spec_task())
    }
}

/// Taking the task at the front of the queue to poll it.
pub open spec fn next_spec(v: ExecutorState) -> ExecutorState {
    if v.queue.len() == 0 {
        v
    } else {
        ExecutorState {
            status: v.status.update(v.queue[0] as int, TaskStatus::Running),
            queue: v.queue.drop_first(),
            capacity: v.capacity,
        }
    }
}

/// The end of a poll of task `t`: it finishes when the poll was ready;
/// otherwise it runs again if it was woken meanwhile, and waits if not.
pub open spec fn complete_spec(v: ExecutorState, t: usize, ready: bool) -> ExecutorState {
    if ready {
        ExecutorState {
            status: v.status.update(t as int, TaskStatus::Done),
            queue: v.queue,
            capacity: v.capacity,
        }
    } else if v.status[t as int] == TaskStatus::Woken {
        ExecutorState {
            status: v.status.update(t as int, TaskStatus::Queued),
            queue: v.queue.push(t),
            capacity: v.capacity,
        }
    } else {
        ExecutorState {
            status: v.status.update(t as int, TaskStatus::Parked),
            queue: v.queue,
            capacity: v.capacity,
        }
    }
}

proof fn lemma_count_push(s: Seq<TaskStatus>, x: TaskStatus, k: TaskStatus)
    ensures
        count(s.push(x), k) == count(s, k) + if x == k {
            1nat
        } else {
            0nat
        },
{
    assert(s.push(x).drop_last() =~= s);
}

proof fn lemma_count_update(s: Seq<TaskStatus>, i: int, x: TaskStatus, k: TaskStatus)
    requires
        0 <= i < s.len(),
    ensures
        count(s.update(i, x), k) == count(s, k) - (if s[i] == k {
            1int
        } else {
            0int
        }) + (if x == k {
            1int
        } else {
            0int
        }),
    decreases s.len(),
{
    let u = s.update(i, x);
    if i == s.len() - 1 {
        assert(u.drop_last() =~= s.drop_last());
    } else {
        assert(u.drop_last() =~= s.drop_last().update(i, x));
        lemma_count_update(s.drop_last(), i, x, k);
    }
}

proof fn lemma_count_pair(s: Seq<TaskStatus>, k1: TaskStatus, k2: TaskStatus)
    requires
        k1 != k2,
    ensures
        count(s, k1) + count(s, k2) <= s.len(),
    decreases s.len(),
{
    if s.len() > 0 {
        lemma_count_pair(s.drop_last(), k1, k2);
    }
}

proof fn lemma_count_pair_strict(s: Seq<TaskStatus>, k1: TaskStatus, k2: TaskStatus, i: int)
    requires
        k1 != k2,
        0 <= i < s.len(),
        s[i] != k1,
        s[i] != k2,
    ensures
        count(s, k1) + count(s, k2) < s.len(),
    decreases s.len(),
{
    if i == s.len() - 1 {
        lemma_count_pair(s.drop_last(), k1, k2);
    } else {
        lemma_count_pair_strict(s.drop_last(), k1, k2, i);
    }
}

/// A finished task stays finished, and is never handed out to be polled
/// again: a late wake of it changes nothing, it is not in the queue, and no
/// other step of the executor touches its status.
pub proof fn lemma_finished_task_is_never_polled_again(v: ExecutorState, t: usize)
    requires
        state_wf(v),
        t < v.status.len(),
        v.status[t as int] == TaskStatus::Done,
    ensures
        wake_spec(v, t) == v,
        !v.queue.contains(t),
        next_spec(v).status[t as int] == TaskStatus::Done,
        spawn_spec(v).status[t as int] == TaskStatus::Done,
        forall|u: usize| #[trigger] wake_spec(v, u).status[t as int] == TaskStatus::Done,
        forall|u: usize, ready: bool|
            u < v.status.len() && (v.status[u as int] == TaskStatus::Running || v.status[u as int]
                == TaskStatus::Woken) ==> #[trigger] complete_spec(v, u, ready).status[t as int]
                == TaskStatus::Done,
{
    if v.queue.contains(t) {
        let i = choose|i: int| 0 <= i < v.queue.len() && v.queue[i] == t;
        assert(v.status[v.queue[i] as int] == TaskStatus::Queued);
    }
}

/// A task finishes only through a poll that reported it ready: no wake,
/// spawn, hand-out, or poll that suspended gives a task a result.
pub proof fn lemma_finished_only_when_ready(v: ExecutorState, t: usize, ready: bool, u: int)
    requires
        state_wf(v),
        t < v.status.len(),
        v.status[t as int] == TaskStatus::Running || v.status[t as int] == TaskStatus::Woken,
        0 <= u < v.status.len(),
    ensures
        (complete_spec(v, t, ready).status[u] == TaskStatus::Done) <==> (v.status[u]
            == TaskStatus::Done || (u == t && ready)),
        (next_spec(v).status[u] == TaskStatus::Done) <==> (v.status[u] == TaskStatus::Done),
        (spawn_spec(v).status[u] == TaskStatus::Done) <==> (v.status[u] == TaskStatus::Done),
        spawn_spec(v).status[v.status.len() as int] == TaskStatus::Queued,
        forall|w: usize|
            (#[trigger] wake_spec(v, w).status[u] == TaskStatus::Done) <==> (v.status[u]
                == TaskStatus::Done),
{
}

/// Every runnable task gets polled: the task at the front is the next one
/// handed out, any other moves one place toward the front, and no wake,
/// spawn or end of a poll moves it back. A task with `k` tasks ahead of it
/// is therefore polled after at most `k + 1` hand-outs.
pub proof fn lemma_runnable_task_moves_to_front(v: ExecutorState, k: int)
    requires
        state_wf(v),
        0 <= k < v.queue.len(),
    ensures
        k == 0 ==> next_spec(v).status[v.queue[0] as int] == TaskStatus::Running,
        k > 0 ==> next_spec(v).queue[k - 1] == v.queue[k],
        spawn_spec(v).queue[k] == v.queue[k],
        forall|w: usize| #[trigger] wake_spec(v, w).queue[k] == v.queue[k],
        forall|t: usize, ready: bool|
            t < v.status.len() && (v.status[t as int] == TaskStatus::Running || v.status[t as int]
                == TaskStatus::Woken) ==> #[trigger] complete_spec(v, t, ready).queue[k]
                == v.queue[k],
{
}

/// The scheduler of a runtime: the tasks it has spawned and the queue of
/// those that are runnable, polled in the order they became runnable.
///
/// The embedding program holds each task's computation; the executor
/// decides which task runs next and what a poll or a wake does to it.
pub struct Executor {
    status: Vec<TaskStatus>,
    tasks: TaskQueue,
    live: usize,
}

impl View for Executor {
    type V = ExecutorState;

    closed spec fn view(&self) -> ExecutorState {
        ExecutorState {
            status: self.status@,
            queue: self.tasks@,
            capacity: self.tasks.spec_capacity(),
        }
    }
}

impl Executor {
    pub closed spec fn wf(&self) -> bool {
        &&& state_wf(self@)
        &&& self.live == live_count(self.status@)
    }

    /// An executor with no tasks, admitting the default number of
    /// unfinished tasks.
    pub fn new() -> (r: Self)
        ensures
            r.wf(),
            r@.status.len() == 0,
            r@.queue.len() == 0,
            r@.capacity == DEFAULT_CAPACITY,
    {
        Self::with_capacity(DEFAULT_CAPACITY)
    }

    /// An executor with no tasks, admitting `capacity` unfinished tasks.
    pub fn with_capacity(capacity: usize) -> (r: Self)
        ensures
            r.wf(),
            r@.status.len() == 0,
            r@.queue.len() == 0,
            r@.capacity == capacity,
    {
        let r = Executor { status: Vec::new(), tasks: TaskQueue::with_capacity(capacity), live: 0 };
        assert(r.status@.len() == 0);
        r
    }

    /// Adds a runnable task at the back of the queue. The embedding program
    /// keeps the task's computation under the identifier returned. When as
    /// many unfinished tasks exist as the executor admits, nothing changes
    /// and the spawn is refused.
    pub fn spawn(&mut self) -> (r: core::result::Result<Task, SpawnError>)
        requires
            old(self).wf(),
        ensures
            final(self).wf(),
            r is Err <==> live_count(old(self)@.status) >= old(self)@.capacity,
            r is Err ==> final(self)@ == old(self)@,
            r matches Ok(t) ==> t.spec_id() == old(self)@.status.len() && final(self)@
                == spawn_spec(old(self)@),
    {
        if self.live >= self.tasks.capacity() {
            return Err(SpawnError::QueueFull);
        }
        let id = self.status.len();
        proof {
            lemma_count_pair(self.status@, TaskStatus::Queued, TaskStatus::Done);
            lemma_count_push(self.status@, TaskStatus::Queued, TaskStatus::Queued);
            lemma_count_push(self.status@, TaskStatus::Queued, TaskStatus::Done);
        }
        let _ = self.tasks.send(id);
        self.status.push(TaskStatus::Queued);
        self.live = self.live + 1;
        proof {
            assert(self@.queue.no_duplicates()) by {
                assert forall|i: int, j: int|
                    0 <= i < j < self@.queue.len() implies self@.queue[i] != self@.queue[j] by {
                    if j == self@.queue.len() - 1 {
                        assert(old(self)@.queue[i] < old(self)@.status.len());
                    }
                }
            }
        }
        Ok(Task::new(id))
    }

    /// Takes the task at the front of the queue to be polled, if any task
    /// is runnable.
    pub fn next_task(&mut self) -> (r: Option<Task>)
        requires
            old(self).wf(),
        ensures
            final(self).wf(),
            final(self)@ == next_spec(old(self)@),
            r is None <==> old(self)@.queue.len() == 0,
            r matches Some(t) ==> t.spec_id() == old(self)@.queue[0],
    {
        match self.tasks.try_recv() {
            Some(t) => {
                proof {
                    lemma_count_update(self.status@, t as int, TaskStatus::Running, TaskStatus::Queued);
                    lemma_count_update(self.status@, t as int, TaskStatus::Running, TaskStatus::Done);
                    assert(old(self)@.queue[0] == t);
                }
                self.status.set(t, TaskStatus::Running);
                proof {
                    assert forall|i: int| 0 <= i < self@.queue.len() implies (#[trigger] self@.queue[i])
                        < self@.status.len() && self@.status[self@.queue[i] as int]
                        == TaskStatus::Queued by {
                        assert(self@.queue[i] == old(self)@.queue[i + 1]);
                        assert(old(self)@.queue[i + 1] != old(self)@.queue[0]);
                    }
                }
                Some(Task::new(t))
            },
            None => None,
        }
    }

    /// Records the end of a poll of `task`: `ready` says whether its
    /// computation reached its result.
    pub fn complete(&mut self, task: &Task, ready: bool)
        requires
            old(self).wf(),
            task.spec_id() < old(self)@.status.len(),
            old(self)@.status[task.spec_id() as int] == TaskStatus::Running
                || old(self)@.status[task.spec_id() as int] == TaskStatus::Woken,
        ensures
            final(self).wf(),
            final(self)@ == complete_spec(old(self)@, task.spec_id(), ready),
    {
        let t = task.id();
        proof {
            lemma_count_pair_strict(self.status@, TaskStatus::Queued, TaskStatus::Done, t as int);
            lemma_count_update(self.status@, t as int, TaskStatus::Done, TaskStatus::Queued);
            lemma_count_update(self.status@, t as int, TaskStatus::Done, TaskStatus::Done);
            lemma_count_update(self.status@, t as int, TaskStatus::Queued, TaskStatus::Queued);
            lemma_count_update(self.status@, t as int, TaskStatus::Queued, TaskStatus::Done);
            lemma_count_update(self.status@, t as int, TaskStatus::Parked, TaskStatus::Queued);
            lemma_count_update(self.status@, t as int, TaskStatus::Parked, TaskStatus::Done);
            assert(!self@.queue.contains(t));
        }
        if ready {
            self.status.set(t, TaskStatus::Done);
            self.live = self.live - 1;
        } else {
            match self.status[t] {
                TaskStatus::Woken => {
                    self.status.set(t, TaskStatus::Queued);
                    let _ = self.tasks.send(t);
                },
                _ => {
                    self.status.set(t, TaskStatus::Parked);
                },
            }
        }
        proof {
            assert forall|i: int| 0 <= i < self@.queue.len() implies (#[trigger] self@.queue[i])
                < self@.status.len() && self@.status[self@.queue[i] as int]
                == TaskStatus::Queued by {
                if i < old(self)@.queue.len() {
                    assert(old(self)@.queue[i] != t);
                }
            }
        }
    }

    /// Invokes a wake capability: see `wake_spec`.
    pub fn wake(&mut self, waker: &Waker)
        requires
            old(self).wf(),
        ensures
            final(self).wf(),
            final(self)@ == wake_spec(old(self)@, waker.spec_task()),
    {
        let t = waker.task();
        if t < self.status.len() {
            proof {
                assert(!self@.queue.contains(t) || self@.status[t as int] == TaskStatus::Queued);
                lemma_count_update(self.status@, t as int, TaskStatus::Queued, TaskStatus::Queued);
                lemma_count_update(self.status@, t as int, TaskStatus::Queued, TaskStatus::Done);
                lemma_count_update(self.status@, t as int, TaskStatus::Woken, TaskStatus::Queued);
                lemma_count_update(self.status@, t as int, TaskStatus::Woken, TaskStatus::Done);
            }
            match self.status[t] {
                TaskStatus::Parked => {
                    proof {
                        lemma_count_pair_strict(
                            self.status@,
                            TaskStatus::Queued,
                            TaskStatus::Done,
                            t as int,
                        );
                    }
                    self.status.set(t, TaskStatus::Queued);
                    let _ = self.tasks.send(t);
                },
                TaskStatus::Running => {
                    self.status.set(t, TaskStatus::Woken);
                },
                _ => {},
            }
            proof {
                assert forall|i: int| 0 <= i < self@.queue.len() implies (#[trigger] self@.queue[i])
                    < self@.status.len() && self@.status[self@.queue[i] as int]
                    == TaskStatus::Queued by {
                    if i < old(self)@.queue.len() && old(self)@.status[t as int] != TaskStatus::Queued {
                        assert(old(self)@.queue[i] != t);
                    }
                }
            }
        }
    }

    /// Invokes each wake capability of `wakers`, in order.
    pub fn wake_all(&mut self, wakers: &Vec<Waker>)
        requires
            old(self).wf(),
        ensures
            final(self).wf(),
            final(self)@ == wake_all_spec(old(self)@, wakers@),
    {
        let mut i: usize = 0;
        while i < wakers.len()
            invariant
                i <= wakers@.len(),
                self.wf(),
                self@ == wake_all_spec(old(self)@, wakers@.take(i as int)),
            decreases wakers@.len() - i,
        {
            proof {
                assert(wakers@.take(i as int + 1).drop_last() =~= wakers@.take(i as int));
            }
            self.wake(&wakers[i]);
            i = i + 1;
        }
        proof {
            assert(wakers@.take(i as int) =~= wakers@);
        }
    }

    /// Hands a batch of readiness events to `reactor` and invokes, in
    /// order, the wake capabilities they resolve to.
    pub fn handle_events(&mut self, reactor: &mut Reactor, events: &Vec<Event>)
        requires
            old(self).wf(),
        ensures
            final(self).wf(),
            final(reactor)@.registrations == dispatch_spec(old(reactor)@.registrations, events@).0,
            final(reactor)@.ops == old(reactor)@.ops,
            final(self)@ == wake_all_spec(
                old(self)@,
                dispatch_spec(old(reactor)@.registrations, events@).1,
            ),
    {
        let wakers = reactor.dispatch(events);
        self.wake_all(&wakers);
    }

    /// The status of the task `id`, if the executor has spawned it.
    pub fn status(&self, id: usize) -> (r: Option<TaskStatus>)
        ensures
            id < self@.status.len() ==> r == Some(self@.status[id as int]),
            id >= self@.status.len() ==> r is None,
    {
        if id < self.status.len() {
            Some(self.status[id])
        } else {
            None
        }
    }

    /// Whether some task is waiting in the queue.
    pub fn has_runnable(&self) -> (r: bool)
        ensures
            r == (self@.queue.len() > 0),
    {
        self.tasks.len() > 0
    }
}

} // verus!
