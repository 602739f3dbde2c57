//! The relay itself: the broadcast bus, the key registry and the response
//! correlator behind one state object, together with the decision logic of
//! the transport endpoint's publish operation and the bounded-wait state
//! machine that the surrounding process drives.

use crate::bus::{Bus, Subscriber, BUS_CAPACITY};
use crate::correlator::{spec_resolve, Correlator};
use crate::error::PortoError;
use crate::message::{
    is_response_topic, spec_responds_to, spec_response_topic, Payload, PayloadView, RelayMessage,
    RelayMessageView,
};
use crate::registry::{string_seq_set, KeyRegistry};
use vstd::prelude::*;

verus! {

/// The default bound on a synchronous wait, in seconds: generous enough for
/// a human to complete a browser interaction.
pub const DEFAULT_WAIT_TIMEOUT_SECS: u64 = 300;

/// Relies on `uuid::Uuid::new_v4` and its `Display` form: a fresh random
/// message id in the hyphenated format, which is 36 characters long. The
/// value is random; nothing more is assumed of it.
#[verifier::external_body]
fn fresh_message_id() -> (r: String)
    ensures
        r@.len() == 36,
{
    uuid::Uuid::new_v4().to_string()
}

/// A publish request as it reaches the endpoint, each field present or
/// absent exactly as in the request body.
pub struct InboundPost {
    /// The caller-assigned message id, if the body carried one.
    pub id: Option<String>,
    /// The routing topic, required for acceptance.
    pub topic: Option<String>,
    /// The payload, required for acceptance.
    pub payload: Option<Payload>,
}

/// The endpoint's reply to a publish request.
pub enum PostOutcome {
    /// The body was well-formed and the message was broadcast.
    Accepted,
    /// The body was missing `topic` or `payload`: a client error that
    /// affects nothing else.
    BadRequest,
}

/// A stimulus observed while a caller waits for a response.
pub enum WaitEvent {
    /// The wait's own bus subscription delivered this broadcast message.
    Broadcast(RelayMessage),
    /// The underlying broadcast subscription terminated: the relay is gone.
    Closed,
    /// The wait's timeout elapsed.
    Timeout,
}

/// The tagged outcome of one wait step.
pub enum WaitStatus {
    /// Nothing decisive happened; the wait is still pending.
    Pending,
    /// The matching response arrived; carries its result value.
    Resolved(String),
    /// The timeout elapsed before any matching response: the wait is over
    /// and its slot has been removed.
    TimedOut,
    /// The broadcast channel closed: fatal for this wait, distinct from a
    /// timeout so the caller can tell "nothing happened" from "the relay
    /// died".
    ChannelClosed,
}

/// Whether a publish body must be rejected: `topic` or `payload` is missing.
pub open spec fn spec_post_rejected(body: InboundPost) -> bool {
    body.topic is None || body.payload is None
}

/// What an accepted publish does to the pending-wait map: an RPC-response
///-shaped body resolves the matching pending wait, if one exists; any other
/// body leaves the map alone.
pub open spec fn spec_post_resolution(
    m: Map<u64, Option<Seq<char>>>,
    topic: Seq<char>,
    p: PayloadView,
) -> Map<u64, Option<Seq<char>>> {
    if topic == spec_response_topic() && p.request_id is Some && p.result is Some {
        spec_resolve(m, p.request_id.unwrap(), p.result.unwrap())
    } else {
        m
    }
}

/// The relay: one instance per invocation, holding the shared state that
/// every connection handler operates on.
pub struct RelayServer {
    /// The base URL the relay is advertised at.
    pub url: String,
    /// The registered public keys.
    pub registry: KeyRegistry,
    /// The broadcast bus.
    pub bus: Bus,
    /// The pending-wait map.
    pub correlator: Correlator,
}

impl RelayServer {
    pub open spec fn wf(&self) -> bool {
        &&& self.registry.wf()
        &&& self.correlator.wf()
        &&& self.bus.wf()
    }

    /// A fresh relay advertising the given base URL: no keys, no messages,
    /// no pending waits.
    pub fn new(url: String) -> (r: Self)
        ensures
            r.wf(),
            r.url@ == url@,
            r.registry@ == Set::<Seq<char>>::empty(),
            r.bus@ == Seq::<RelayMessageView>::empty(),
            r.bus.spec_capacity() == BUS_CAPACITY,
            r.correlator@ == Map::<u64, Option<Seq<char>>>::empty(),
    {
        RelayServer {
            url,
            registry: KeyRegistry::new(),
            bus: Bus::new(BUS_CAPACITY),
            correlator: Correlator::new(),
        }
    }

    /// The base URL the relay is advertised at.
    pub fn url(&self) -> (r: &str)
        ensures
            r@ == self.url@,
    {
        self.url.as_str()
    }

    /// Idempotent key registration: afterwards the registry holds exactly
    /// the old keys plus this one. Never fails.
    pub fn register_public_key(&mut self, public_key: String) -> (r: Result<(), PortoError>)
        requires
            old(self).wf(),
        ensures
            final(self).wf(),
            r is Ok,
            final(self).registry@ == old(self).registry@.insert(public_key@),
            final(self).bus == old(self).bus,
            final(self).correlator == old(self).correlator,
            final(self).url == old(self).url,
    {
        self.registry.register(public_key);
        Ok(())
    }

    /// A snapshot of the key registry: the set of distinct keys registered
    /// so far, regardless of duplicates or ordering.
    pub fn list_keys(&self) -> (r: Vec<String>)
        ensures
            string_seq_set(r@) == self.registry@,
    {
        self.registry.list_keys()
    }

    /// Attaches a new subscriber to the broadcast bus; it observes exactly
    /// the messages published from this moment on.
    pub fn subscribe(&self) -> (r: Subscriber)
        ensures
            r.wf(&self.bus),
            r.spec_start() == self.bus@.len(),
            r.spec_received() == Seq::<RelayMessageView>::empty(),
            r.spec_cursor() == self.bus@.len(),
    {
        self.bus.subscribe()
    }

    /// Publishes a message under a fresh relay-assigned id. Succeeds whether
    /// or not any subscriber is attached: with none, the message is simply
    /// never read.
    pub fn send_message(&mut self, topic: &str, payload: Payload) -> (r: Result<
        String,
        PortoError,
    >)
        requires
            old(self).wf(),
        ensures
            final(self).wf(),
            r is Ok,
            r matches Ok(id) ==> id@.len() == 36 && final(self).bus@ == old(self).bus@.push(
                RelayMessageView { id: id@, topic: topic@, payload: payload@ },
            ),
            final(self).registry == old(self).registry,
            final(self).correlator == old(self).correlator,
            final(self).url == old(self).url,
            final(self).bus.spec_capacity() == old(self).bus.spec_capacity(),
    {
        let id = fresh_message_id();
        let message = RelayMessage { id: id.clone(), topic: topic.to_owned(), payload };
        self.bus.publish(message);
        Ok(id)
    }

    /// The publish endpoint's decision: a body missing `topic` or `payload`
    /// is rejected with a client error and changes nothing. Any other body
    /// is accepted: if it is shaped as an RPC response, the matching pending
    /// wait (if any) is resolved first; the message is then broadcast
    /// unconditionally, under its own id or a fresh one, so every other
    /// subscriber still observes it.
    pub fn handle_post(&mut self, body: InboundPost) -> (r: PostOutcome)
        requires
            old(self).wf(),
        ensures
            final(self).wf(),
            final(self).registry == old(self).registry,
            final(self).url == old(self).url,
            final(self).bus.spec_capacity() == old(self).bus.spec_capacity(),
            spec_post_rejected(body) ==> r == PostOutcome::BadRequest && *final(self) == *old(self),
            !spec_post_rejected(body) ==> {
                &&& r == PostOutcome::Accepted
                &&& final(self).correlator@ == spec_post_resolution(
                    old(self).correlator@,
                    body.topic.unwrap()@,
                    body.payload.unwrap()@,
                )
                &&& final(self).bus@.len() == old(self).bus@.len() + 1
                &&& final(self).bus@.drop_last() == old(self).bus@
                &&& final(self).bus@.last().topic == body.topic.unwrap()@
                &&& final(self).bus@.last().payload == body.payload.unwrap()@
                &&& (body.id matches Some(i) ==> final(self).bus@.last().id == i@)
                &&& (body.id is None ==> final(self).bus@.last().id.len() == 36)
            },
    {
        let InboundPost { id, topic, payload } = body;
        let topic = match topic {
            Some(t) => t,
            None => {
                return PostOutcome::BadRequest;
            },
        };
        let payload = match payload {
            Some(p) => p,
            None => {
                return PostOutcome::BadRequest;
            },
        };
        if is_response_topic(&topic) {
            if let Some(rid) = payload.request_id {
                match &payload.result {
                    Some(res) => {
                        let _ = self.correlator.resolve(rid, res.clone());
                    },
                    None => {},
                }
            }
        }
        let mid = match id {
            Some(i) => i,
            None => fresh_message_id(),
        };
        let message = RelayMessage { id: mid, topic, payload };
        self.bus.publish(message);
        proof {
            assert(final(self).bus@.drop_last() =~= old(self).bus@);
        }
        PostOutcome::Accepted
    }

    /// Registers a pending wait for `request_id`. A second wait for an id
    /// already pending is refused, so it cannot corrupt the first.
    pub fn begin_wait(&mut self, request_id: u64) -> (r: bool)
        requires
            old(self).wf(),
        ensures
            final(self).wf(),
            r == !old(self).correlator@.contains_key(request_id),
            r ==> final(self).correlator@ == old(self).correlator@.insert(request_id, None),
            !r ==> *final(self) == *old(self),
            final(self).registry == old(self).registry,
            final(self).bus == old(self).bus,
            final(self).url == old(self).url,
    {
        self.correlator.begin_wait(request_id)
    }

    /// The direct resolution path: delivers `value` into the pending wait
    /// for `request_id` if one exists, and reports whether one did. A stray
    /// or duplicate resolution is a no-op, never an error.
    pub fn resolve(&mut self, request_id: u64, value: String) -> (r: bool)
        requires
            old(self).wf(),
        ensures
            final(self).wf(),
            r == (old(self).correlator@.contains_key(request_id)
                && old(self).correlator@[request_id] is None),
            final(self).correlator@ == spec_resolve(old(self).correlator@, request_id, value@),
            !r ==> *final(self) == *old(self),
            final(self).registry == old(self).registry,
            final(self).bus == old(self).bus,
            final(self).url == old(self).url,
    {
        self.correlator.resolve(request_id, value)
    }

    /// Hands a delivered result over to its waiter, removing the slot; the
    /// value is delivered at most once.
    pub fn take_response(&mut self, request_id: u64) -> (r: Option<String>)
        requires
            old(self).wf(),
        ensures
            final(self).wf(),
            r is Some <==> (old(self).correlator@.contains_key(request_id) && old(self).correlator@[request_id] is Some),
            r matches Some(v) ==> Some(v@) == old(self).correlator@[request_id] && final(self).correlator@ == old(self).correlator@.remove(request_id),
            r is None ==> *final(self) == *old(self),
            final(self).registry == old(self).registry,
            final(self).bus == old(self).bus,
            final(self).url == old(self).url,
    {
        self.correlator.take_response(request_id)
    }

    /// Whether a wait for `request_id` is registered and still undelivered.
    pub fn has_pending_wait(&self, request_id: u64) -> (r: bool)
        requires
            self.wf(),
        ensures
            r == (self.correlator@.contains_key(request_id)
                && self.correlator@[request_id] is None),
    {
        self.correlator.has_pending(request_id)
    }

    /// One step of the bounded wait for `request_id`: the first decisive
    /// outcome wins. A value already delivered through the direct path is
    /// taken first; otherwise a broadcast response for this very id resolves
    /// the wait through the observed path; a closed channel or an elapsed
    /// timeout ends the wait, removing its slot so nothing leaks and no late
    /// resolution can fire.
    pub fn wait_step(&mut self, request_id: u64, event: WaitEvent) -> (r: WaitStatus)
        requires
            old(self).wf(),
        ensures
            final(self).wf(),
            final(self).registry == old(self).registry,
            final(self).bus == old(self).bus,
            final(self).url == old(self).url,
            (old(self).correlator@.contains_key(request_id) && old(self).correlator@[request_id] is Some) ==> (r matches WaitStatus::Resolved(v) && Some(v@)
                == old(self).correlator@[request_id] && final(self).correlator@ == old(self).correlator@.remove(request_id)),
            !(old(self).correlator@.contains_key(request_id) && old(self).correlator@[request_id] is Some) ==> match event {
                WaitEvent::Broadcast(m) => {
                    if spec_responds_to(m@, request_id) && old(self).correlator@.contains_key(
                        request_id,
                    ) && old(self).correlator@[request_id] is None {
                        &&& r matches WaitStatus::Resolved(v)
                        &&& v@ == m@.payload.result.unwrap()
                        &&& final(self).correlator@ == old(self).correlator@.remove(request_id)
                    } else {
                        r == WaitStatus::Pending && *final(self) == *old(self)
                    }
                },
                WaitEvent::Closed => r == WaitStatus::ChannelClosed && final(self).correlator@
                    == old(self).correlator@.remove(request_id),
                WaitEvent::Timeout => r == WaitStatus::TimedOut && final(self).correlator@ == old(self).correlator@.remove(request_id),
            },
    {
        if let Some(v) = self.correlator.take_response(request_id) {
            return WaitStatus::Resolved(v);
        }
        match event {
            WaitEvent::Broadcast(m) => {
                if is_response_topic(&m.topic) {
                    if let Some(rid) = m.payload.request_id {
                        if rid == request_id {
                            if let Some(res) = m.payload.result {
                                if self.correlator.has_pending(request_id) {
                                    self.correlator.cancel(request_id);
                                    return WaitStatus::Resolved(res);
                                }
                            }
                        }
                    }
                }
                WaitStatus::Pending
            },
            WaitEvent::Closed => {
                self.correlator.cancel(request_id);
                WaitStatus::ChannelClosed
            },
            WaitEvent::Timeout => {
                self.correlator.cancel(request_id);
                WaitStatus::TimedOut
            },
        }
    }
}

} // verus!
