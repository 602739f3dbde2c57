//! Messages carried by the relay: an opaque id, a free-form topic used for
//! routing, and a payload that is never inspected except for the two
//! correlation sub-fields read when the topic marks an RPC response.

use vstd::prelude::*;
use vstd::string::StringExecFns;

verus! {

/// A message payload: the payload value as serialized text, together with the
/// two well-known sub-fields the relay correlates on. The relay is
/// payload-agnostic and carries `text` through untouched; `request_id` and
/// `result` mirror the payload's numeric `id` and `result` sub-fields, when
/// those are present, and are read only for RPC responses.
pub struct Payload {
    /// The numeric `id` sub-field of the payload, when present: the request
    /// id being answered.
    pub request_id: Option<u64>,
    /// The `result` sub-field of the payload, as serialized text, when
    /// present.
    pub result: Option<String>,
    /// The whole payload value, as serialized text.
    pub text: String,
}

/// The mathematical content of a [`Payload`].
pub struct PayloadView {
    pub request_id: Option<u64>,
    pub result: Option<Seq<char>>,
    pub text: Seq<char>,
}

impl View for Payload {
    type V = PayloadView;

    open spec fn view(&self) -> PayloadView {
        PayloadView {
            request_id: self.request_id,
            result: match self.result {
                Some(s) => Some(s@),
                None => None,
            },
            text: self.text@,
        }
    }
}

impl Clone for Payload {
    fn clone(&self) -> (r: Self)
        ensures
            r@ == self@,
    {
        Payload {
            request_id: self.request_id,
            result: match &self.result {
                Some(s) => Some(s.clone()),
                None => None,
            },
            text: self.text.clone(),
        }
    }
}

/// A message as accepted and fanned out by the relay.
pub struct RelayMessage {
    /// Relay-assigned or caller-assigned opaque message id; not the same
    /// namespace as a request id.
    pub id: String,
    /// Free-form tag used for routing semantics.
    pub topic: String,
    pub payload: Payload,
}

/// The mathematical content of a [`RelayMessage`].
pub struct RelayMessageView {
    pub id: Seq<char>,
    pub topic: Seq<char>,
    pub payload: PayloadView,
}

impl View for RelayMessage {
    type V = RelayMessageView;

    open spec fn view(&self) -> RelayMessageView {
        RelayMessageView { id: self.id@, topic: self.topic@, payload: self.payload@ }
    }
}

impl Clone for RelayMessage {
    fn clone(&self) -> (r: Self)
        ensures
            r@ == self@,
    {
        RelayMessage { id: self.id.clone(), topic: self.topic.clone(), payload: self.payload.clone() }
    }
}

/// The reserved topic value that marks a payload as an RPC response.
pub open spec fn spec_response_topic() -> Seq<char> {
    "rpc-response"@
}

/// Whether the message announces the result of the request identified by
/// `request_id`: its topic is the reserved response marker and its payload
/// carries that numeric id together with a result.
pub open spec fn spec_responds_to(m: RelayMessageView, request_id: u64) -> bool {
    &&& m.topic == spec_response_topic()
    &&& m.payload.request_id == Some(request_id)
    &&& m.payload.result is Some
}

/// Whether the topic equals the reserved response marker.
pub fn is_response_topic(topic: &String) -> (r: bool)
    ensures
        r == (topic@ == spec_response_topic()),
{
    let marker = String::from_str("rpc-response");
    *topic == marker
}

} // verus!
