//! The broadcast bus: a single multi-subscriber event stream. Every accepted
//! message is fanned out to all current subscribers; a late subscriber sees
//! only future messages; a subscriber that falls more than the bus capacity
//! behind silently misses the overwritten messages — an accepted degradation,
//! not an error.

use crate::message::{RelayMessage, RelayMessageView};
use vstd::prelude::*;

verus! {

/// How many recent messages the bus keeps reachable for a slow subscriber:
/// sized generously to absorb bursts between the producer and the slowest
/// consumer.
pub const BUS_CAPACITY: usize = 100;

/// The broadcast bus. Publishing appends to a log of messages; each
/// subscriber walks that log with its own cursor. Only the most recent
/// `capacity` messages are within a subscriber's reach, so a subscriber that
/// lags further behind misses messages exactly as it would on a bounded ring.
pub struct Bus {
    log: Vec<RelayMessage>,
    capacity: usize,
}

impl View for Bus {
    type V = Seq<RelayMessageView>;

    /// The messages published so far, in publish order.
    closed spec fn view(&self) -> Seq<RelayMessageView> {
        self.log@.map_values(|m: RelayMessage| m@)
    }
}

impl Bus {
    pub closed spec fn spec_capacity(&self) -> usize {
        self.capacity
    }

    pub open spec fn wf(&self) -> bool {
        self.spec_capacity() > 0
    }

    /// The log position of the oldest message a subscriber can still read.
    pub open spec fn first_retained(&self) -> int {
        if self@.len() > self.spec_capacity() {
            self@.len() - self.spec_capacity()
        } else {
            0
        }
    }

    pub fn new(capacity: usize) -> (r: Self)
        requires
            capacity > 0,
        ensures
            r.wf(),
            r@ == Seq::<RelayMessageView>::empty(),
            r.spec_capacity() == capacity,
    {
        let r = Bus { log: Vec::new(), capacity };
        proof {
            assert(r@ =~= Seq::<RelayMessageView>::empty());
        }
        r
    }

    /// Accepts a message and makes it visible to every currently attached
    /// subscriber. With no subscriber attached, nobody will ever read it:
    /// dropped, not queued, and not a failure.
    pub fn publish(&mut self, m: RelayMessage)
        requires
            old(self).wf(),
        ensures
            final(self).wf(),
            final(self).spec_capacity() == old(self).spec_capacity(),
            final(self)@ == old(self)@.push(m@),
    {
        let ghost mv = m@;
        self.log.push(m);
        proof {
            assert(self@ =~= old(self)@.push(mv));
        }
    }

    /// Attaches a new subscriber, which starts from "now": it will observe
    /// exactly the messages published from this moment on, never history.
    pub fn subscribe(&self) -> (r: Subscriber)
        ensures
            r.wf(self),
            r.spec_start() == self@.len(),
            r.spec_received() == Seq::<RelayMessageView>::empty(),
            r.spec_cursor() == self@.len(),
    {
        Subscriber {
            cursor: self.log.len(),
            start: Ghost(self@.len() as int),
            received: Ghost(Seq::empty()),
            indices: Ghost(Seq::empty()),
        }
    }
}

/// A receive-only view onto the bus: a cursor into the publish log, plus the
/// ghost history of what this subscriber has been delivered.
pub struct Subscriber {
    cursor: usize,
    start: Ghost<int>,
    received: Ghost<Seq<RelayMessageView>>,
    indices: Ghost<Seq<int>>,
}

/// What one receive step yielded.
pub enum RecvOutcome {
    /// The next message, in publish order.
    Message(RelayMessage),
    /// The subscriber fell behind and this many messages were overwritten
    /// before it could read them; it continues from the oldest retained one.
    Lagged(usize),
    /// Nothing has been published beyond this subscriber's cursor yet.
    Pending,
}

impl Subscriber {
    /// The next log position this subscriber will read.
    pub closed spec fn spec_cursor(&self) -> int {
        self.cursor as int
    }

    /// The log length at the moment this subscriber attached.
    pub closed spec fn spec_start(&self) -> int {
        self.start@
    }

    /// The messages delivered to this subscriber so far, oldest first.
    pub closed spec fn spec_received(&self) -> Seq<RelayMessageView> {
        self.received@
    }

    /// The log position each delivered message was published at.
    pub closed spec fn spec_indices(&self) -> Seq<int> {
        self.indices@
    }

    /// The subscriber's state is consistent with the bus: its delivered
    /// history is a strictly increasing selection of log positions, all at or
    /// after its attach point and before its cursor, each holding exactly the
    /// message that stands in the log there.
    pub open spec fn wf(&self, bus: &Bus) -> bool {
        &&& 0 <= self.spec_start() <= self.spec_cursor() <= bus@.len()
        &&& self.spec_indices().len() == self.spec_received().len()
        &&& forall|j: int|
            0 <= j < self.spec_indices().len() ==> self.spec_start() <= #[trigger] self.spec_indices()[j]
                < self.spec_cursor()
        &&& forall|j: int, k: int|
            0 <= j < k < self.spec_indices().len() ==> #[trigger] self.spec_indices()[j]
                < #[trigger] self.spec_indices()[k]
        &&& forall|j: int|
            0 <= j < self.spec_indices().len() ==> self.spec_received()[j] == bus@[#[trigger] self.spec_indices()[j]]
    }

    /// One receive step against the bus: the next retained message in publish
    /// order, a lag notice if the cursor fell out of the retained window, or
    /// nothing when the subscriber has seen everything published so far.
    pub fn recv(&mut self, bus: &Bus) -> (r: RecvOutcome)
        requires
            old(self).wf(bus),
        ensures
            final(self).wf(bus),
            final(self).spec_start() == old(self).spec_start(),
            old(self).spec_cursor() == bus@.len() ==> r is Pending && *final(self) == *old(self),
            old(self).spec_cursor() < bus.first_retained() ==> {
                &&& r == RecvOutcome::Lagged((bus.first_retained() - old(self).spec_cursor()) as usize)
                &&& final(self).spec_cursor() == bus.first_retained()
                &&& final(self).spec_received() == old(self).spec_received()
                &&& final(self).spec_indices() == old(self).spec_indices()
            },
            bus.first_retained() <= old(self).spec_cursor() < bus@.len() ==> {
                &&& r matches RecvOutcome::Message(m) && m@ == bus@[old(self).spec_cursor()]
                &&& final(self).spec_received() == old(self).spec_received().push(
                    bus@[old(self).spec_cursor()],
                )
                &&& final(self).spec_indices() == old(self).spec_indices().push(old(self).spec_cursor())
                &&& final(self).spec_cursor() == old(self).spec_cursor() + 1
            },
    {
        let oldest: usize = if bus.log.len() > bus.capacity {
            bus.log.len() - bus.capacity
        } else {
            0
        };
        if self.cursor < oldest {
            let missed = oldest - self.cursor;
            self.cursor = oldest;
            RecvOutcome::Lagged(missed)
        } else if self.cursor < bus.log.len() {
            let ghost c = self.spec_cursor();
            let m = bus.log[self.cursor].clone();
            self.received = Ghost(self.received@.push(bus@[c]));
            self.indices = Ghost(self.indices@.push(c));
            self.cursor = self.cursor + 1;
            proof {
                assert(m@ == bus@[c]);
                assert forall|j: int, k: int|
                    0 <= j < k < self.spec_indices().len() implies #[trigger] self.spec_indices()[j]
                    < #[trigger] self.spec_indices()[k] by {
                    if k == self.spec_indices().len() - 1 {
                        assert(old(self).spec_indices()[j] < c);
                    }
                }
            }
            RecvOutcome::Message(m)
        } else {
            RecvOutcome::Pending
        }
    }
}

/// No replay: every message a subscriber has been delivered was published at
/// or after the moment the subscriber attached. Messages broadcast while it
/// was not yet attached — in particular while zero subscribers existed — are
/// never observed by it.
pub proof fn lemma_no_replay(s: Subscriber, bus: &Bus, j: int)
    requires
        s.wf(bus),
        0 <= j < s.spec_received().len(),
    ensures
        s.spec_start() <= s.spec_indices()[j],
        s.spec_received()[j] == bus@[s.spec_indices()[j]],
{
}

/// Consistent fan-out: when two subscribers have each been delivered the same
/// pair of broadcast messages (identified by their log positions), both saw
/// identical content and the same relative order.
pub proof fn lemma_same_order(
    s1: Subscriber,
    s2: Subscriber,
    bus: &Bus,
    a1: int,
    b1: int,
    a2: int,
    b2: int,
)
    requires
        s1.wf(bus),
        s2.wf(bus),
        0 <= a1 < b1 < s1.spec_received().len(),
        0 <= a2 < s2.spec_received().len(),
        0 <= b2 < s2.spec_received().len(),
        s1.spec_indices()[a1] == s2.spec_indices()[a2],
        s1.spec_indices()[b1] == s2.spec_indices()[b2],
    ensures
        a2 < b2,
        s1.spec_received()[a1] == s2.spec_received()[a2],
        s1.spec_received()[b1] == s2.spec_received()[b2],
{
    assert(s1.spec_indices()[a1] < s1.spec_indices()[b1]);
    if b2 < a2 {
        assert(s2.spec_indices()[b2] < s2.spec_indices()[a2]);
        assert(false);
    }
    if b2 == a2 {
        assert(false);
    }
}

/// A subscriber's state stays consistent as the bus grows: publishing more
/// messages never disturbs what an existing subscriber has already been
/// delivered.
pub proof fn lemma_wf_after_publish(s: Subscriber, b1: &Bus, b2: &Bus, m: RelayMessageView)
    requires
        s.wf(b1),
        b2@ == b1@.push(m),
    ensures
        s.wf(b2),
{
    assert forall|j: int| 0 <= j < s.spec_indices().len() implies s.spec_received()[j] == b2@[
        #[trigger] s.spec_indices()[j]
    ] by {
        assert(b2@[s.spec_indices()[j]] == b1@[s.spec_indices()[j]]);
    }
}

} // verus!
