//! The response correlator: maps a numeric request id to a one-shot delivery
//! slot. A slot is created when a wait begins, filled at most once when a
//! matching response arrives, and removed the moment the waiter takes the
//! value or abandons the wait. Resolving an id with no matching pending wait
//! is a no-op, never an error.

use vstd::prelude::*;

verus! {

/// A one-shot delivery slot for one request id.
pub enum WaitSlot {
    /// The wait is registered and no value has been delivered yet.
    Waiting,
    /// A result value has been delivered and not yet handed to the waiter.
    Filled(String),
}

/// What a slot holds: `None` while waiting, the delivered value once filled.
pub open spec fn slot_view(s: WaitSlot) -> Option<Seq<char>> {
    match s {
        WaitSlot::Waiting => None,
        WaitSlot::Filled(v) => Some(v@),
    }
}

/// The map from request id to slot content modelled by a sequence of entries.
pub open spec fn entries_map(s: Seq<(u64, WaitSlot)>) -> Map<u64, Option<Seq<char>>>
    decreases s.len(),
{
    if s.len() == 0 {
        Map::empty()
    } else {
        entries_map(s.drop_last()).insert(s.last().0, slot_view(s.last().1))
    }
}

/// No request id occurs twice among the entries.
pub open spec fn distinct_ids(s: Seq<(u64, WaitSlot)>) -> bool {
    forall|i: int, j: int| 0 <= i < j < s.len() ==> s[i].0 != s[j].0
}

/// The state transition a resolution performs: when a pending (still waiting)
/// slot exists for `request_id`, it is filled with `value`; otherwise the
/// resolution is a no-op.
pub open spec fn spec_resolve(
    m: Map<u64, Option<Seq<char>>>,
    request_id: u64,
    value: Seq<char>,
) -> Map<u64, Option<Seq<char>>> {
    if m.contains_key(request_id) && m[request_id] is None {
        m.insert(request_id, Some(value))
    } else {
        m
    }
}

proof fn lemma_entries_map_contains(s: Seq<(u64, WaitSlot)>, id: u64)
    ensures
        entries_map(s).contains_key(id) <==> exists|i: int| 0 <= i < s.len() && s[i].0 == id,
    decreases s.len(),
{
    if s.len() > 0 {
        lemma_entries_map_contains(s.drop_last(), id);
        if s.last().0 == id {
            assert(s[s.len() - 1].0 == id);
        } else {
            if exists|i: int| 0 <= i < s.len() && s[i].0 == id {
                let i = choose|i: int| 0 <= i < s.len() && s[i].0 == id;
                assert(s.drop_last()[i].0 == id);
            }
        }
    }
}

proof fn lemma_entries_map_index(s: Seq<(u64, WaitSlot)>, i: int)
    requires
        distinct_ids(s),
        0 <= i < s.len(),
    ensures
        entries_map(s).contains_key(s[i].0),
        entries_map(s)[s[i].0] == slot_view(s[i].1),
    decreases s.len(),
{
    if i == s.len() - 1 {
    } else {
        assert(distinct_ids(s.drop_last()));
        lemma_entries_map_index(s.drop_last(), i);
        assert(s.drop_last()[i] == s[i]);
        assert(s.last().0 != s[i].0);
    }
}

proof fn lemma_distinct_remove(s: Seq<(u64, WaitSlot)>, i: int)
    requires
        distinct_ids(s),
        0 <= i < s.len(),
    ensures
        distinct_ids(s.remove(i)),
{
    let t = s.remove(i);
    assert forall|j: int, k: int| 0 <= j < k < t.len() implies t[j].0 != t[k].0 by {
        let j0 = if j < i { j } else { j + 1 };
        let k0 = if k < i { k } else { k + 1 };
        assert(t[j] == s[j0]);
        assert(t[k] == s[k0]);
    }
}

proof fn lemma_entries_map_remove(s: Seq<(u64, WaitSlot)>, i: int)
    requires
        distinct_ids(s),
        0 <= i < s.len(),
    ensures
        entries_map(s.remove(i)) == entries_map(s).remove(s[i].0),
    decreases s.len(),
{
    let t = s.remove(i);
    if i == s.len() - 1 {
        assert(t =~= s.drop_last());
        lemma_entries_map_contains(s.drop_last(), s[i].0);
        assert(!entries_map(s.drop_last()).contains_key(s[i].0));
        assert(entries_map(s.drop_last()).insert(s.last().0, slot_view(s.last().1)).remove(
            s[i].0,
        ) =~= entries_map(s.drop_last()));
    } else {
        assert(t.len() == s.len() - 1);
        assert(t.last() == s[s.len() - 1]);
        assert(t.drop_last() =~= s.drop_last().remove(i));
        assert(distinct_ids(s.drop_last()));
        lemma_entries_map_remove(s.drop_last(), i);
        assert(s.drop_last()[i] == s[i]);
        assert(s.last().0 != s[i].0);
        assert(entries_map(t) == entries_map(s.drop_last()).remove(s[i].0).insert(
            s.last().0,
            slot_view(s.last().1),
        ));
        assert(entries_map(s.drop_last()).remove(s[i].0).insert(
            s.last().0,
            slot_view(s.last().1),
        ) =~= entries_map(s.drop_last()).insert(s.last().0, slot_view(s.last().1)).remove(
            s[i].0,
        ));
    }
}

/// The pending-wait map: request id to one-shot slot, at most one entry per
/// id at any time.
pub struct Correlator {
    entries: Vec<(u64, WaitSlot)>,
}

impl View for Correlator {
    type V = Map<u64, Option<Seq<char>>>;

    /// The pending waits: `None` for a wait still pending, `Some(v)` for a
    /// delivered value not yet taken by its waiter.
    closed spec fn view(&self) -> Map<u64, Option<Seq<char>>> {
        entries_map(self.entries@)
    }
}

impl Correlator {
    /// At most one slot exists per request id.
    pub closed spec fn wf(&self) -> bool {
        distinct_ids(self.entries@)
    }

    pub fn new() -> (r: Self)
        ensures
            r.wf(),
            r@ == Map::<u64, Option<Seq<char>>>::empty(),
    {
        Correlator { entries: Vec::new() }
    }

    fn find(&self, request_id: u64) -> (r: Option<usize>)
        ensures
            match r {
                Some(i) => 0 <= i < self.entries@.len() && self.entries@[i as int].0
                    == request_id,
                None => forall|j: int|
                    0 <= j < self.entries@.len() ==> self.entries@[j].0 != request_id,
            },
    {
        let n = self.entries.len();
        let mut i: usize = 0;
        while i < n
            invariant
                n == self.entries@.len(),
                forall|j: int| 0 <= j < i ==> self.entries@[j].0 != request_id,
            decreases n - i,
        {
            if self.entries[i].0 == request_id {
                return Some(i);
            }
            i += 1;
        }
        None
    }

    /// Registers a pending wait for `request_id`. A second wait for an id
    /// already pending is refused and leaves the first wait untouched.
    pub fn begin_wait(&mut self, request_id: u64) -> (r: bool)
        requires
            old(self).wf(),
        ensures
            final(self).wf(),
            r == !old(self)@.contains_key(request_id),
            r ==> final(self)@ == old(self)@.insert(request_id, None),
            !r ==> *final(self) == *old(self),
    {
        proof {
            lemma_entries_map_contains(self.entries@, request_id);
        }
        match self.find(request_id) {
            Some(_) => false,
            None => {
                self.entries.push((request_id, WaitSlot::Waiting));
                proof {
                    let prev = old(self).entries@;
                    assert(self.entries@.drop_last() =~= prev);
                    assert(self.entries@.last() == (request_id, WaitSlot::Waiting));
                    assert(self@ == entries_map(prev).insert(request_id, None));
                }
                true
            },
        }
    }

    /// Looks up the pending wait for `request_id` and delivers `value` into
    /// it; reports whether one existed. Fulfilling an already-resolved or
    /// non-existent wait is a no-op, never an error.
    pub fn resolve(&mut self, request_id: u64, value: String) -> (r: bool)
        requires
            old(self).wf(),
        ensures
            final(self).wf(),
            r == (old(self)@.contains_key(request_id) && old(self)@[request_id] is None),
            final(self)@ == spec_resolve(old(self)@, request_id, value@),
            !r ==> *final(self) == *old(self),
    {
        proof {
            lemma_entries_map_contains(self.entries@, request_id);
        }
        match self.find(request_id) {
            Some(i) => {
                proof {
                    lemma_entries_map_index(self.entries@, i as int);
                }
                let waiting = match &self.entries[i].1 {
                    WaitSlot::Waiting => true,
                    WaitSlot::Filled(_) => false,
                };
                if waiting {
                    let ghost prev = self.entries@;
                    self.entries.remove(i);
                    self.entries.push((request_id, WaitSlot::Filled(value)));
                    proof {
                        lemma_distinct_remove(prev, i as int);
                        lemma_entries_map_remove(prev, i as int);
                        let mid = prev.remove(i as int);
                        assert(self.entries@.drop_last() =~= mid);
                        assert(self.entries@.last() == (
                            request_id,
                            WaitSlot::Filled(value),
                        ));
                        assert(self@ == entries_map(mid).insert(request_id, Some(value@)));
                        assert(entries_map(prev).remove(request_id).insert(
                            request_id,
                            Some(value@),
                        ) =~= entries_map(prev).insert(request_id, Some(value@)));
                        assert forall|j: int, k: int|
                            0 <= j < k < self.entries@.len() implies self.entries@[j].0
                            != self.entries@[k].0 by {
                            lemma_entries_map_contains(mid, request_id);
                            if k == self.entries@.len() - 1 {
                                assert(self.entries@[j] == mid[j]);
                            } else {
                                assert(self.entries@[j] == mid[j]);
                                assert(self.entries@[k] == mid[k]);
                            }
                        }
                    }
                    true
                } else {
                    false
                }
            },
            None => false,
        }
    }

    /// Hands a delivered value over to its waiter: removes the slot for
    /// `request_id` if it has been filled, transferring ownership of the
    /// value. While the slot is still waiting — or after the value was
    /// already taken — there is nothing to hand over.
    pub fn take_response(&mut self, request_id: u64) -> (r: Option<String>)
        requires
            old(self).wf(),
        ensures
            final(self).wf(),
            r is Some <==> (old(self)@.contains_key(request_id) && old(self)@[request_id] is Some),
            r matches Some(v) ==> Some(v@) == old(self)@[request_id] && final(self)@ == old(
                self,
            )@.remove(request_id),
            r is None ==> *final(self) == *old(self),
    {
        proof {
            lemma_entries_map_contains(self.entries@, request_id);
        }
        match self.find(request_id) {
            Some(i) => {
                proof {
                    lemma_entries_map_index(self.entries@, i as int);
                }
                let delivered = match &self.entries[i].1 {
                    WaitSlot::Filled(v) => Some(v.clone()),
                    WaitSlot::Waiting => None,
                };
                match delivered {
                    Some(v) => {
                        proof {
                            lemma_distinct_remove(self.entries@, i as int);
                            lemma_entries_map_remove(self.entries@, i as int);
                        }
                        self.entries.remove(i);
                        Some(v)
                    },
                    None => None,
                }
            },
            None => None,
        }
    }

    /// Abandons any wait for `request_id`: its slot, filled or not, is
    /// removed so that nothing leaks and no late resolution can fire.
    pub fn cancel(&mut self, request_id: u64)
        requires
            old(self).wf(),
        ensures
            final(self).wf(),
            final(self)@ == old(self)@.remove(request_id),
    {
        proof {
            lemma_entries_map_contains(self.entries@, request_id);
        }
        match self.find(request_id) {
            Some(i) => {
                proof {
                    lemma_distinct_remove(self.entries@, i as int);
                    lemma_entries_map_remove(self.entries@, i as int);
                }
                self.entries.remove(i);
            },
            None => {
                proof {
                    assert(old(self)@.remove(request_id) =~= old(self)@);
                }
            },
        }
    }

    /// Whether a wait for `request_id` is registered and still undelivered.
    pub fn has_pending(&self, request_id: u64) -> (r: bool)
        requires
            self.wf(),
        ensures
            r == (self@.contains_key(request_id) && self@[request_id] is None),
    {
        proof {
            lemma_entries_map_contains(self.entries@, request_id);
        }
        match self.find(request_id) {
            Some(i) => {
                proof {
                    lemma_entries_map_index(self.entries@, i as int);
                }
                match &self.entries[i].1 {
                    WaitSlot::Waiting => true,
                    WaitSlot::Filled(_) => false,
                }
            },
            None => false,
        }
    }
}

/// Exactly-once delivery: once a resolution for a request id has fired, the
/// slot is filled, so a second resolution for the same id — whichever of the
/// direct and the observed path lost the race — changes nothing.
pub proof fn lemma_resolve_at_most_once(
    m: Map<u64, Option<Seq<char>>>,
    request_id: u64,
    v1: Seq<char>,
    v2: Seq<char>,
)
    ensures
        spec_resolve(spec_resolve(m, request_id, v1), request_id, v2) == spec_resolve(
            m,
            request_id,
            v1,
        ),
{
}

/// A resolution that finds its pending wait delivers exactly the published
/// result value into the slot, where the waiter will take it.
pub proof fn lemma_resolve_delivers_value(
    m: Map<u64, Option<Seq<char>>>,
    request_id: u64,
    v: Seq<char>,
)
    requires
        m.contains_key(request_id),
        m[request_id] is None,
    ensures
        spec_resolve(m, request_id, v).contains_key(request_id),
        spec_resolve(m, request_id, v)[request_id] == Some(v),
{
}

/// A stray or duplicate resolution — one for an id with no matching pending
/// wait — does not raise an error and leaves the whole map unchanged.
pub proof fn lemma_resolve_stray_noop(
    m: Map<u64, Option<Seq<char>>>,
    request_id: u64,
    v: Seq<char>,
)
    requires
        !(m.contains_key(request_id) && m[request_id] is None),
    ensures
        spec_resolve(m, request_id, v) == m,
{
}

/// Resolution only ever touches the slot of its own request id: every other
/// pending wait is exactly as it was.
pub proof fn lemma_resolve_frame(
    m: Map<u64, Option<Seq<char>>>,
    request_id: u64,
    v: Seq<char>,
    other: u64,
)
    requires
        other != request_id,
    ensures
        spec_resolve(m, request_id, v).contains_key(other) == m.contains_key(other),
        m.contains_key(other) ==> spec_resolve(m, request_id, v)[other] == m[other],
{
}

/// Publishing a response for a different request id leaves a pending wait
/// untouched: it stays registered and still undelivered.
pub proof fn lemma_other_response_keeps_wait_pending(
    m: Map<u64, Option<Seq<char>>>,
    request_id: u64,
    other_id: u64,
    v: Seq<char>,
)
    requires
        other_id != request_id,
        m.contains_key(request_id),
        m[request_id] is None,
    ensures
        spec_resolve(m, other_id, v).contains_key(request_id),
        spec_resolve(m, other_id, v)[request_id] is None,
{
}

} // verus!
