//! Behaviour of the relay model: registry snapshots, broadcast fan-out,
//! response correlation and the bounded-wait state machine.

use porto::bus::{Bus, RecvOutcome};
use porto::message::{Payload, RelayMessage};
use porto::relay::{InboundPost, PostOutcome, RelayServer, WaitEvent, WaitStatus};

fn plain_payload(text: &str) -> Payload {
    Payload { request_id: None, result: None, text: text.to_string() }
}

fn response_payload(request_id: u64, result: &str, text: &str) -> Payload {
    Payload {
        request_id: Some(request_id),
        result: Some(result.to_string()),
        text: text.to_string(),
    }
}

fn message(id: &str, topic: &str, payload: Payload) -> RelayMessage {
    RelayMessage { id: id.to_string(), topic: topic.to_string(), payload }
}

#[test]
fn test_register_and_list_keys() {
    let mut relay = RelayServer::new("http://localhost:0".to_string());
    assert!(relay.list_keys().is_empty());
    relay.register_public_key("0xPUB".to_string()).unwrap();
    relay.register_public_key("0xPUB".to_string()).unwrap();
    relay.register_public_key("0xOTHER".to_string()).unwrap();
    let keys = relay.list_keys();
    assert_eq!(keys.len(), 2);
    assert!(keys.iter().any(|k| k == "0xPUB"));
    assert!(keys.iter().any(|k| k == "0xOTHER"));
}

#[test]
fn test_url_is_kept() {
    let relay = RelayServer::new("http://localhost:4711".to_string());
    assert_eq!(relay.url(), "http://localhost:4711");
}

#[test]
fn test_no_replay_for_late_subscriber() {
    let mut bus = Bus::new(100);
    bus.publish(message("m1", "greeting", plain_payload("\"before\"")));
    let mut sub = bus.subscribe();
    match sub.recv(&bus) {
        RecvOutcome::Pending => {}
        _ => panic!("a late subscriber must not see earlier messages"),
    }
    bus.publish(message("m2", "greeting", plain_payload("\"after\"")));
    match sub.recv(&bus) {
        RecvOutcome::Message(m) => assert_eq!(m.id, "m2"),
        _ => panic!("the message published after attach must arrive"),
    }
}

#[test]
fn test_fanout_same_content_same_order() {
    let mut bus = Bus::new(100);
    let mut s1 = bus.subscribe();
    let mut s2 = bus.subscribe();
    bus.publish(message("a", "t", plain_payload("1")));
    bus.publish(message("b", "t", plain_payload("2")));
    for sub in [&mut s1, &mut s2] {
        match sub.recv(&bus) {
            RecvOutcome::Message(m) => {
                assert_eq!(m.id, "a");
                assert_eq!(m.topic, "t");
                assert_eq!(m.payload.text, "1");
            }
            _ => panic!("first message missing"),
        }
        match sub.recv(&bus) {
            RecvOutcome::Message(m) => assert_eq!(m.id, "b"),
            _ => panic!("second message missing"),
        }
    }
}

#[test]
fn test_slow_subscriber_misses_overwritten_messages() {
    // A subscriber that falls further behind than the bus capacity silently
    // misses the overwritten messages: an accepted degradation, not an error.
    let mut bus = Bus::new(2);
    let mut sub = bus.subscribe();
    for i in 0..5u32 {
        bus.publish(message(&format!("m{}", i), "t", plain_payload("x")));
    }
    match sub.recv(&bus) {
        RecvOutcome::Lagged(missed) => assert_eq!(missed, 3),
        _ => panic!("the lag must be reported"),
    }
    match sub.recv(&bus) {
        RecvOutcome::Message(m) => assert_eq!(m.id, "m3"),
        _ => panic!("delivery must continue from the oldest retained message"),
    }
}

#[test]
fn test_register_empty_key_is_a_key_like_any_other() {
    let mut relay = RelayServer::new(String::new());
    relay.register_public_key(String::new()).unwrap();
    relay.register_public_key(String::new()).unwrap();
    assert_eq!(relay.list_keys(), vec![String::new()]);
}

#[test]
fn test_subscriber_at_exact_capacity_misses_nothing() {
    // Exactly as many messages as the bus retains: no lag, all delivered.
    let mut bus = Bus::new(2);
    let mut sub = bus.subscribe();
    bus.publish(message("m0", "t", plain_payload("x")));
    bus.publish(message("m1", "t", plain_payload("x")));
    for expected in ["m0", "m1"] {
        match sub.recv(&bus) {
            RecvOutcome::Message(m) => assert_eq!(m.id, expected),
            _ => panic!("a subscriber exactly at capacity must miss nothing"),
        }
    }
    match sub.recv(&bus) {
        RecvOutcome::Pending => {}
        _ => panic!("nothing further was published"),
    }
}

#[test]
fn test_resolve_delivers_exactly_once() {
    let mut relay = RelayServer::new(String::new());
    assert!(relay.begin_wait(1));
    assert!(relay.resolve(1, "\"value\"".to_string()));
    assert_eq!(relay.take_response(1), Some("\"value\"".to_string()));
    assert_eq!(relay.take_response(1), None);
    assert!(!relay.resolve(1, "\"other\"".to_string()));
}

#[test]
fn test_second_wait_for_same_id_is_refused() {
    let mut relay = RelayServer::new(String::new());
    assert!(relay.begin_wait(9));
    assert!(!relay.begin_wait(9));
    // The first wait is untouched and can still be resolved.
    assert!(relay.resolve(9, "\"v\"".to_string()));
    assert_eq!(relay.take_response(9), Some("\"v\"".to_string()));
}

#[test]
fn test_stray_resolution_is_no_error_and_no_effect() {
    let mut relay = RelayServer::new(String::new());
    assert!(relay.begin_wait(1));
    assert!(!relay.resolve(2, "\"stray\"".to_string()));
    assert!(relay.has_pending_wait(1));
    assert_eq!(relay.take_response(1), None);
}

#[test]
fn test_response_for_other_id_leaves_wait_pending() {
    let mut relay = RelayServer::new(String::new());
    assert!(relay.begin_wait(1));
    let body = InboundPost {
        id: None,
        topic: Some("rpc-response".to_string()),
        payload: Some(response_payload(2, "\"r\"", "{\"id\":2,\"result\":\"r\"}")),
    };
    match relay.handle_post(body) {
        PostOutcome::Accepted => {}
        PostOutcome::BadRequest => panic!("a well-formed body must be accepted"),
    }
    // The wait for id 1 is still pending and unresolved.
    assert!(relay.has_pending_wait(1));
    let observed = message(
        "x",
        "rpc-response",
        response_payload(2, "\"r\"", "{\"id\":2,\"result\":\"r\"}"),
    );
    match relay.wait_step(1, WaitEvent::Broadcast(observed)) {
        WaitStatus::Pending => {}
        _ => panic!("a response for a different id must not resolve this wait"),
    }
    assert!(relay.has_pending_wait(1));
}

#[test]
fn test_wait_resolved_through_observed_path() {
    let mut relay = RelayServer::new(String::new());
    assert!(relay.begin_wait(7));
    let seen = message(
        "m",
        "rpc-response",
        response_payload(7, "42", "{\"id\":7,\"result\":42}"),
    );
    match relay.wait_step(7, WaitEvent::Broadcast(seen)) {
        WaitStatus::Resolved(v) => assert_eq!(v, "42"),
        _ => panic!("the observed response must resolve the wait"),
    }
    assert!(!relay.has_pending_wait(7));
}

#[test]
fn test_wait_timeout_removes_pending_entry() {
    let mut relay = RelayServer::new(String::new());
    assert!(relay.begin_wait(2));
    match relay.wait_step(2, WaitEvent::Timeout) {
        WaitStatus::TimedOut => {}
        _ => panic!("with nothing delivered, the timeout must win"),
    }
    // The entry is gone: a new wait for the same id can begin.
    assert!(relay.begin_wait(2));
}

#[test]
fn test_wait_channel_closed_is_distinct_from_timeout() {
    let mut relay = RelayServer::new(String::new());
    assert!(relay.begin_wait(3));
    match relay.wait_step(3, WaitEvent::Closed) {
        WaitStatus::ChannelClosed => {}
        _ => panic!("a closed channel must be reported as such"),
    }
}

#[test]
fn test_handle_post_rejects_missing_fields() {
    let mut relay = RelayServer::new(String::new());
    let no_topic = InboundPost { id: None, topic: None, payload: Some(plain_payload("{}")) };
    match relay.handle_post(no_topic) {
        PostOutcome::BadRequest => {}
        PostOutcome::Accepted => panic!("a body without topic must be rejected"),
    }
    let no_payload = InboundPost { id: None, topic: Some("t".to_string()), payload: None };
    match relay.handle_post(no_payload) {
        PostOutcome::BadRequest => {}
        PostOutcome::Accepted => panic!("a body without payload must be rejected"),
    }
}

#[test]
fn test_handle_post_broadcasts_with_given_id() {
    let mut relay = RelayServer::new(String::new());
    let mut sub = relay.subscribe();
    let body = InboundPost {
        id: Some("custom-id".to_string()),
        topic: Some("hello".to_string()),
        payload: Some(plain_payload("{\"a\":1}")),
    };
    match relay.handle_post(body) {
        PostOutcome::Accepted => {}
        PostOutcome::BadRequest => panic!("a well-formed body must be accepted"),
    }
    match sub.recv(&relay.bus) {
        RecvOutcome::Message(m) => {
            assert_eq!(m.id, "custom-id");
            assert_eq!(m.topic, "hello");
            assert_eq!(m.payload.text, "{\"a\":1}");
        }
        _ => panic!("the accepted message must reach the subscriber"),
    }
}

#[test]
fn test_handle_post_generates_id_when_absent() {
    let mut relay = RelayServer::new(String::new());
    let mut sub = relay.subscribe();
    let body = InboundPost {
        id: None,
        topic: Some("hello".to_string()),
        payload: Some(plain_payload("null")),
    };
    match relay.handle_post(body) {
        PostOutcome::Accepted => {}
        PostOutcome::BadRequest => panic!("a well-formed body must be accepted"),
    }
    match sub.recv(&relay.bus) {
        RecvOutcome::Message(m) => assert_eq!(m.id.len(), 36),
        _ => panic!("the accepted message must reach the subscriber"),
    }
}

#[test]
fn test_send_message_assigns_fresh_id_and_broadcasts() {
    let mut relay = RelayServer::new(String::new());
    let mut sub = relay.subscribe();
    let id = relay
        .send_message("success", plain_payload("{\"title\":\"done\"}"))
        .unwrap();
    assert_eq!(id.len(), 36);
    match sub.recv(&relay.bus) {
        RecvOutcome::Message(m) => {
            assert_eq!(m.id, id);
            assert_eq!(m.topic, "success");
            assert_eq!(m.payload.text, "{\"title\":\"done\"}");
        }
        _ => panic!("the sent message must reach the subscriber"),
    }
}

#[test]
fn test_end_to_end_connect_scenario() {
    // The full flow against the relay model: subscribe a client, register a
    // key, confirm the registry snapshot, wait for request id 1, publish the
    // response, and confirm both the waiter and the subscriber saw it.
    let mut relay = RelayServer::new("http://localhost:0".to_string());
    let mut sub = relay.subscribe();
    relay.register_public_key("0xPUB".to_string()).unwrap();
    let keys = relay.list_keys();
    assert_eq!(keys, vec!["0xPUB".to_string()]);

    assert!(relay.begin_wait(1));
    let result_text = "{\"accounts\":[{\"address\":\"0xABC\"}]}";
    let body_text = format!("{{\"id\":1,\"result\":{}}}", result_text);
    let body = InboundPost {
        id: None,
        topic: Some("rpc-response".to_string()),
        payload: Some(response_payload(1, result_text, &body_text)),
    };
    match relay.handle_post(body) {
        PostOutcome::Accepted => {}
        PostOutcome::BadRequest => panic!("the response publish must be accepted"),
    }
    // The waiter gets exactly the result value, once.
    match relay.wait_step(1, WaitEvent::Timeout) {
        WaitStatus::Resolved(v) => assert_eq!(v, result_text),
        _ => panic!("the delivered value must win over the timeout"),
    }
    assert_eq!(relay.take_response(1), None);
    // The subscribed stream observed the same message.
    match sub.recv(&relay.bus) {
        RecvOutcome::Message(m) => {
            assert_eq!(m.topic, "rpc-response");
            assert_eq!(m.payload.text, body_text);
            assert_eq!(m.payload.result.as_deref(), Some(result_text));
        }
        _ => panic!("the subscriber must observe the response message"),
    }
}

#[test]
fn test_timeout_scenario_without_publish() {
    // A wait with no corresponding publish ends in the timeout outcome, not
    // in a resolution and not in an error.
    let mut relay = RelayServer::new(String::new());
    assert!(relay.begin_wait(2));
    match relay.wait_step(2, WaitEvent::Broadcast(message("x", "unrelated", plain_payload("0")))) {
        WaitStatus::Pending => {}
        _ => panic!("an unrelated broadcast must not end the wait"),
    }
    match relay.wait_step(2, WaitEvent::Timeout) {
        WaitStatus::TimedOut => {}
        _ => panic!("with no matching publish, the wait must time out"),
    }
}
