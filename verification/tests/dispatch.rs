//! End-to-end dispatch scenarios against a mock publisher.

use std::cell::RefCell;
use std::rc::Rc;

use reply_dispatch::constants::SEND_DEADLINE_MS;
use reply_dispatch::logger::LogLevel;
use reply_dispatch::message::{DispatchResult, MalformedMessage, Message, PublishError, ReplyRecord};
use reply_dispatch::observable_pattern::{Observable, Publisher, Registry};
use reply_dispatch::test_service::{EchoReplyHandler, ServiceMethods};

/// One recorded publish call: target topic, key, payload, deadline.
type RecordedCall = (String, Option<String>, String, u64);

struct MockPublisher {
    calls: Rc<RefCell<Vec<RecordedCall>>>,
    response: Result<(i32, i64), PublishError>,
}

impl Publisher for MockPublisher {
    fn publish(&mut self, record: &ReplyRecord, deadline_ms: u64) -> Result<(i32, i64), PublishError> {
        self.calls.borrow_mut().push((
            record.topic.clone(),
            record.key.clone(),
            record.payload.clone(),
            deadline_ms,
        ));
        self.response
    }
}

fn engine_with_handlers(
    response: Result<(i32, i64), PublishError>,
) -> (Observable<EchoReplyHandler, MockPublisher>, Rc<RefCell<Vec<RecordedCall>>>) {
    let calls = Rc::new(RefCell::new(Vec::new()));
    let mut engine = Observable::new(MockPublisher { calls: Rc::clone(&calls), response });
    ServiceMethods::new().handlers(&mut engine);
    (engine, calls)
}

fn text_message(topic: &str, key: &str, payload: &str) -> Message {
    Message {
        topic: topic.to_string(),
        key: Some(key.as_bytes().to_vec()),
        payload: Some(payload.as_bytes().to_vec()),
        partition: 0,
        offset: 0,
    }
}

#[test]
fn unregistered_topic_is_skipped() {
    let (mut engine, calls) = engine_with_handlers(Ok((0, 0)));
    let result = engine.emit(&text_message("unregistered", "k", "p"));
    assert!(matches!(result, DispatchResult::NoHandler));
    assert_eq!(calls.borrow().len(), 0);
    let events = engine.take_events();
    assert_eq!(events.len(), 1);
    assert_eq!(events[0].level, LogLevel::Warn);
    assert_eq!(events[0].label, "unregistered");
    assert_eq!(events[0].text, "no handler for topic: unregistered");
}

#[test]
fn echo_scenario_publishes_envelope() {
    let (mut engine, calls) = engine_with_handlers(Ok((2, 42)));
    let result = engine.emit(&text_message("test", "k1", "hello"));
    match result {
        DispatchResult::HandledOk(partition, offset) => {
            assert_eq!(partition, 2);
            assert_eq!(offset, 42);
        }
        _ => panic!("expected HandledOk"),
    }
    let recorded = calls.borrow();
    assert_eq!(recorded.len(), 1);
    let (topic, key, payload, deadline) = &recorded[0];
    assert_eq!(topic, "test.reply");
    assert_eq!(key.as_deref(), Some("k1"));
    assert_eq!(
        payload,
        "{\"message\":\"hello\",\"reply_for_key\":\"k1\",\"status\":true,\"topic\":\"test\"}"
    );
    assert_eq!(*deadline, SEND_DEADLINE_MS);
    let events = engine.take_events();
    assert_eq!(events.len(), 1);
    assert_eq!(events[0].level, LogLevel::Info);
    assert_eq!(events[0].text, "Response sent to: test.reply");
}

#[test]
fn second_served_topic_echoes_too() {
    let (mut engine, calls) = engine_with_handlers(Ok((0, 7)));
    let result = engine.emit(&text_message("another", "k2", "data"));
    assert!(matches!(result, DispatchResult::HandledOk(0, 7)));
    let recorded = calls.borrow();
    assert_eq!(recorded.len(), 1);
    assert_eq!(recorded[0].0, "another.reply");
    assert_eq!(
        recorded[0].2,
        "{\"message\":\"data\",\"reply_for_key\":\"k2\",\"status\":true,\"topic\":\"another\"}"
    );
}

#[test]
fn publish_timeout_surfaces_unsent_record() {
    let (mut engine, calls) = engine_with_handlers(Err(PublishError::Timeout));
    let result = engine.emit(&text_message("test", "k1", "hello"));
    match result {
        DispatchResult::HandledErr(error, record) => {
            assert!(matches!(error, PublishError::Timeout));
            assert_eq!(record.topic, "test.reply");
            assert_eq!(record.key.as_deref(), Some("k1"));
            assert_eq!(
                record.payload,
                "{\"message\":\"hello\",\"reply_for_key\":\"k1\",\"status\":true,\"topic\":\"test\"}"
            );
        }
        _ => panic!("expected HandledErr"),
    }
    // exactly one attempt: the failure is reported, never retried
    assert_eq!(calls.borrow().len(), 1);
    let events = engine.take_events();
    assert_eq!(events.len(), 1);
    assert_eq!(events[0].level, LogLevel::Error);
    assert_eq!(
        events[0].text,
        "Error sending response to -> test.reply: timed out waiting for broker acknowledgment"
    );
}

#[test]
fn identical_messages_are_not_deduplicated() {
    let (mut engine, calls) = engine_with_handlers(Ok((1, 1)));
    let first = engine.emit(&text_message("test", "k", "same"));
    let second = engine.emit(&text_message("test", "k", "same"));
    assert!(matches!(first, DispatchResult::HandledOk(1, 1)));
    assert!(matches!(second, DispatchResult::HandledOk(1, 1)));
    let recorded = calls.borrow();
    assert_eq!(recorded.len(), 2);
    assert_eq!(recorded[0], recorded[1]);
}

#[test]
fn reregistration_replaces_in_registry() {
    let mut registry: Registry<u64> = Registry::new();
    registry.register("t", 1);
    registry.register("t", 2);
    registry.register("u", 3);
    assert_eq!(registry.lookup(&"t".to_string()), Some(&2));
    assert_eq!(registry.lookup(&"u".to_string()), Some(&3));
    assert_eq!(registry.lookup(&"v".to_string()), None);
}

#[test]
fn reregistration_keeps_dispatch_working() {
    let (mut engine, calls) = engine_with_handlers(Ok((0, 1)));
    // register the served topics a second time: the fresh handlers win and
    // dispatch still publishes exactly once
    ServiceMethods::new().handlers(&mut engine);
    let result = engine.emit(&text_message("test", "k", "p"));
    assert!(matches!(result, DispatchResult::HandledOk(0, 1)));
    assert_eq!(calls.borrow().len(), 1);
}

#[test]
fn malformed_key_is_reported_not_published() {
    let (mut engine, calls) = engine_with_handlers(Ok((0, 0)));
    let message = Message {
        topic: "test".to_string(),
        key: Some(vec![0xff, 0xfe]),
        payload: Some(b"fine".to_vec()),
        partition: 0,
        offset: 0,
    };
    let result = engine.emit(&message);
    assert!(matches!(
        result,
        DispatchResult::Malformed(MalformedMessage::InvalidKey)
    ));
    assert_eq!(calls.borrow().len(), 0);
    let events = engine.take_events();
    assert_eq!(events.len(), 1);
    assert_eq!(events[0].level, LogLevel::Error);
}

#[test]
fn missing_key_and_payload_use_placeholders() {
    let (mut engine, calls) = engine_with_handlers(Ok((0, 0)));
    let message = Message {
        topic: "test".to_string(),
        key: None,
        payload: None,
        partition: 3,
        offset: 9,
    };
    let result = engine.emit(&message);
    assert!(matches!(result, DispatchResult::HandledOk(0, 0)));
    let recorded = calls.borrow();
    assert_eq!(recorded.len(), 1);
    assert_eq!(recorded[0].1.as_deref(), Some("No Key Found"));
    assert_eq!(
        recorded[0].2,
        "{\"message\":\"No Payload Found\",\"reply_for_key\":\"No Key Found\",\"status\":true,\"topic\":\"test\"}"
    );
}
