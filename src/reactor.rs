use vstd::prelude::*;

use std::collections::HashMap;

use crate::task::Waker;

verus! {

broadcast use vstd::std_specs::hash::group_hash_axioms;

/// The readiness a descriptor is watched for.
#[derive(Debug, Clone, Copy, PartialEq, Eq)]
pub struct Interest {
    pub readable: bool,
    pub writable: bool,
}

impl Interest {
    pub open spec fn readable_spec() -> Interest {
        Interest { readable: true, writable: false }
    }

    pub open spec fn writable_spec() -> Interest {
        Interest { readable: false, writable: true }
    }

    pub open spec fn both_spec() -> Interest {
        Interest { readable: true, writable: true }
    }

    /// Readiness to read, or to accept a connection.
    pub fn readable() -> (r: Interest)
        ensures
            r == Interest::readable_spec(),
    {
        Interest { readable: true, writable: false }
    }

    /// Readiness to write.
    pub fn writable() -> (r: Interest)
        ensures
            r == Interest::writable_spec(),
    {
        Interest { readable: false, writable: true }
    }

    /// Readiness of either kind.
    pub fn both() -> (r: Interest)
        ensures
            r == Interest::both_spec(),
    {
        Interest { readable: true, writable: true }
    }
}

/// One readiness event reported by the multiplexer.
#[derive(Debug, Clone, Copy, PartialEq, Eq)]
pub struct Event {
    pub key: i32,
    pub readable: bool,
    pub writable: bool,
}

/// What the reactor knows of one registered descriptor: the interest it
/// was last armed with, and the wake capability that its next readiness
/// invokes, if it is armed.
#[derive(Debug, Clone, Copy, PartialEq, Eq)]
pub struct Registration {
    pub interest: Interest,
    pub waker: Option<Waker>,
}

/// A change that the multiplexer has to be told of. Each registration is
/// edge-triggered and one-shot: it fires once per arming.
#[derive(Debug, Clone, Copy, PartialEq, Eq)]
pub enum PollerOp {
    Add(i32, Interest),
    Modify(i32, Interest),
    Delete(i32),
}

/// The abstract state of a reactor: its registrations by descriptor, and
/// the multiplexer changes not yet handed out, oldest first.
pub struct ReactorState {
    pub registrations: Map<i32, Registration>,
    pub ops: Seq<PollerOp>,
}

pub open spec fn register_spec(s: ReactorState, fd: i32, interest: Interest) -> ReactorState {
    ReactorState {
        registrations: s.registrations.insert(fd, Registration { interest, waker: None }),
        ops: s.ops.push(PollerOp::Add(fd, interest)),
    }
}

pub open spec fn modify_spec(s: ReactorState, fd: i32, interest: Interest, w: Waker) -> ReactorState {
    ReactorState {
        registrations: s.registrations.insert(fd, Registration { interest, waker: Some(w) }),
        ops: s.ops.push(PollerOp::Modify(fd, interest)),
    }
}

pub open spec fn remove_spec(s: ReactorState, fd: i32) -> ReactorState {
    ReactorState {
        registrations: s.registrations.remove(fd),
        ops: s.ops.push(PollerOp::Delete(fd)),
    }
}

/// What a batch of events does to the registrations, and the wake
/// capabilities it resolves to, in the order of the events: an event on an
/// armed descriptor takes its wake capability and leaves it registered but
/// unarmed; any other event is dropped.
pub open spec fn dispatch_spec(m: Map<i32, Registration>, events: Seq<Event>) -> (
    Map<i32, Registration>,
    Seq<Waker>,
)
    decreases events.len(),
{
    if events.len() == 0 {
        (m, Seq::empty())
    } else {
        let (m1, w1) = dispatch_spec(m, events.drop_last());
        let k = events.last().key;
        if m1.contains_key(k) && m1[k].waker is Some {
            (
                m1.insert(k, Registration { interest: m1[k].interest, waker: None }),
                w1.push(m1[k].waker->Some_0),
            )
        } else {
            (m1, w1)
        }
    }
}

/// An event keyed by `fd` stands in `events`.
pub open spec fn has_event_for(events: Seq<Event>, fd: i32) -> bool {
    exists|i: int| 0 <= i < events.len() && (#[trigger] events[i]).key == fd
}

/// A batch of events leaves every descriptor it has no event for as it
/// was: registered or not, armed or not, with the same wake capability.
pub proof fn lemma_dispatch_keeps_other_descriptors(
    m: Map<i32, Registration>,
    events: Seq<Event>,
    fd: i32,
)
    requires
        !has_event_for(events, fd),
    ensures
        dispatch_spec(m, events).0.contains_key(fd) == m.contains_key(fd),
        m.contains_key(fd) ==> dispatch_spec(m, events).0[fd] == m[fd],
    decreases events.len(),
{
    if events.len() > 0 {
        assert(events.last() == events[events.len() - 1]);
        assert(!has_event_for(events.drop_last(), fd)) by {
            if has_event_for(events.drop_last(), fd) {
                let i = choose|i: int|
                    0 <= i < events.drop_last().len() && (#[trigger] events.drop_last()[i]).key
                        == fd;
                assert(events[i].key == fd);
            }
        }
        lemma_dispatch_keeps_other_descriptors(m, events.drop_last(), fd);
    }
}

proof fn lemma_dispatch_only_disarms(m: Map<i32, Registration>, events: Seq<Event>, k: i32)
    ensures
        dispatch_spec(m, events).0.contains_key(k) == m.contains_key(k),
        m.contains_key(k) ==> dispatch_spec(m, events).0[k] == m[k] || dispatch_spec(
            m,
            events,
        ).0[k].waker is None,
    decreases events.len(),
{
    if events.len() > 0 {
        lemma_dispatch_only_disarms(m, events.drop_last(), k);
    }
}

/// Every wake capability that a batch of events resolves to was armed, at
/// the start, on a descriptor that one of the events names. So readiness
/// of one descriptor never wakes a task suspended on another.
pub proof fn lemma_dispatch_wakes_only_armed_event_keys(
    m: Map<i32, Registration>,
    events: Seq<Event>,
)
    ensures
        forall|j: int|
            0 <= j < dispatch_spec(m, events).1.len() ==> exists|i: int|
                0 <= i < events.len() && m.contains_key(#[trigger] events[i].key) && m[events[i].key].waker
                    == Some(#[trigger] dispatch_spec(m, events).1[j]),
    decreases events.len(),
{
    if events.len() > 0 {
        let prev = events.drop_last();
        lemma_dispatch_wakes_only_armed_event_keys(m, prev);
        let (m1, w1) = dispatch_spec(m, prev);
        let k = events.last().key;
        let w = dispatch_spec(m, events).1;
        lemma_dispatch_only_disarms(m, prev, k);
        assert forall|j: int| 0 <= j < w.len() implies exists|i: int|
            0 <= i < events.len() && m.contains_key(#[trigger] events[i].key) && m[events[i].key].waker
                == Some(#[trigger] w[j]) by {
            if j < w1.len() {
                assert(w[j] == w1[j]);
                let i = choose|i: int|
                    0 <= i < prev.len() && m.contains_key(#[trigger] prev[i].key) && m[prev[i].key].waker
                        == Some(#[trigger] w1[j]);
                assert(events[i] == prev[i]);
            } else {
                assert(events[events.len() - 1].key == k);
            }
        }
    }
}

/// Every descriptor that a batch of events names and that was armed at the
/// start gets its wake capability invoked.
pub proof fn lemma_dispatch_wakes_every_armed_event_key(
    m: Map<i32, Registration>,
    events: Seq<Event>,
    fd: i32,
)
    requires
        has_event_for(events, fd),
        m.contains_key(fd),
        m[fd].waker is Some,
    ensures
        dispatch_spec(m, events).1.contains(m[fd].waker->Some_0),
    decreases events.len(),
{
    let prev = events.drop_last();
    let (m1, w1) = dispatch_spec(m, prev);
    let w = m[fd].waker->Some_0;
    if has_event_for(prev, fd) {
        lemma_dispatch_wakes_every_armed_event_key(m, prev, fd);
        let j = choose|j: int| 0 <= j < w1.len() && w1[j] == w;
        assert(dispatch_spec(m, events).1[j] == w);
    } else {
        lemma_dispatch_keeps_other_descriptors(m, prev, fd);
        let i = choose|i: int| 0 <= i < events.len() && (#[trigger] events[i]).key == fd;
        if i < prev.len() {
            assert(prev[i] == events[i]);
        }
        assert(events.last().key == fd);
        assert(dispatch_spec(m, events).1.last() == w);
    }
}

/// Arming a descriptor twice leaves it with the later interest and wake
/// capability alone.
pub proof fn lemma_latest_arming_wins(
    s: ReactorState,
    fd: i32,
    i1: Interest,
    w1: Waker,
    i2: Interest,
    w2: Waker,
)
    ensures
        modify_spec(modify_spec(s, fd, i1, w1), fd, i2, w2).registrations[fd] == (Registration {
            interest: i2,
            waker: Some(w2),
        }),
        modify_spec(modify_spec(s, fd, i1, w1), fd, i2, w2).registrations.dom() == s.registrations.dom().insert(fd),
{
    assert(modify_spec(modify_spec(s, fd, i1, w1), fd, i2, w2).registrations.dom() =~= s.registrations.dom().insert(fd));
}

/// The bridge between readiness events and wake capabilities: for each
/// registered descriptor, the interest it is armed with and the wake
/// capability its readiness invokes. The multiplexer itself is driven by
/// the embedding program, which carries out the changes the reactor hands
/// out, in order, before it next waits for events.
pub struct Reactor {
    registrations: HashMap<i32, Registration>,
    ops: Vec<PollerOp>,
}

impl View for Reactor {
    type V = ReactorState;

    closed spec fn view(&self) -> ReactorState {
        ReactorState { registrations: self.registrations@, ops: self.ops@ }
    }
}

impl Reactor {
    /// A reactor with no registrations.
    pub fn new() -> (r: Reactor)
        ensures
            r@.registrations == Map::<i32, Registration>::empty(),
            r@.ops == Seq::<PollerOp>::empty(),
    {
        Reactor { registrations: HashMap::new(), ops: Vec::new() }
    }

    /// Registers `fd`, not yet armed with a wake capability.
    pub fn register(&mut self, fd: i32, interest: Interest)
        ensures
            final(self)@ == register_spec(old(self)@, fd, interest),
    {
        self.registrations.insert(fd, Registration { interest, waker: None });
        self.ops.push(PollerOp::Add(fd, interest));
    }

    /// Arms `fd` with `interest`, and makes `waker` the one capability its
    /// next readiness invokes, in place of any earlier one.
    pub fn modify(&mut self, fd: i32, interest: Interest, waker: Waker)
        ensures
            final(self)@ == modify_spec(old(self)@, fd, interest, waker),
    {
        self.registrations.insert(fd, Registration { interest, waker: Some(waker) });
        self.ops.push(PollerOp::Modify(fd, interest));
    }

    /// Forgets `fd` and any wake capability pending on it.
    pub fn remove(&mut self, fd: i32)
        ensures
            final(self)@ == remove_spec(old(self)@, fd),
    {
        self.registrations.remove(&fd);
        self.ops.push(PollerOp::Delete(fd));
    }

    /// The registration of `fd`, if it has one.
    pub fn registration(&self, fd: i32) -> (r: Option<Registration>)
        ensures
            self@.registrations.contains_key(fd) ==> r == Some(self@.registrations[fd]),
            !self@.registrations.contains_key(fd) ==> r is None,
    {
        match self.registrations.get(&fd) {
            Some(reg) => Some(*reg),
            None => None,
        }
    }

    /// Hands out the multiplexer changes made since the last call, oldest
    /// first.
    pub fn take_ops(&mut self) -> (r: Vec<PollerOp>)
        ensures
            r@ == old(self)@.ops,
            final(self)@.ops == Seq::<PollerOp>::empty(),
            final(self)@.registrations == old(self)@.registrations,
    {
        let mut r: Vec<PollerOp> = Vec::new();
        core::mem::swap(&mut r, &mut self.ops);
        r
    }

    /// Resolves a batch of events into the wake capabilities to invoke:
    /// see `dispatch_spec`.
    pub fn dispatch(&mut self, events: &Vec<Event>) -> (r: Vec<Waker>)
        ensures
            (final(self)@.registrations, r@) == dispatch_spec(old(self)@.registrations, events@),
            final(self)@.ops == old(self)@.ops,
    {
        let mut wakers: Vec<Waker> = Vec::new();
        let mut i: usize = 0;
        while i < events.len()
            invariant
                i <= events@.len(),
                (self@.registrations, wakers@) == dispatch_spec(
                    old(self)@.registrations,
                    events@.take(i as int),
                ),
                self@.ops == old(self)@.ops,
            decreases events@.len() - i,
        {
            let e = events[i];
            proof {
                assert(events@.take(i as int + 1).drop_last() =~= events@.take(i as int));
            }
            let entry = match self.registrations.get(&e.key) {
                Some(reg) => Some(*reg),
                None => None,
            };
            match entry {
                Some(reg) => match reg.waker {
                    Some(w) => {
                        self.registrations.insert(e.key, Registration { interest: reg.interest, waker: None });
                        wakers.push(w);
                    },
                    None => {},
                },
                None => {},
            }
            i = i + 1;
        }
        proof {
            assert(events@.take(i as int) =~= events@);
        }
        wakers
    }
}

} // verus!
