//! The reference handlers.
//!
//! [`EchoReplyHandler`] is the shipped example of the handler contract: it
//! reads the inbound key and payload as text, wraps them in the reply
//! envelope, and targets the topic named after the inbound one with the reply
//! suffix appended, under the original key. [`ServiceMethods::handlers`]
//! registers it for the two served topics.

use vstd::prelude::*;
use vstd::string::StringExecFns;

use crate::constants::{REPLY_SUFFIX, TOPIC_ANOTHER, TOPIC_TEST};
use crate::envelope::{build_reply_envelope, envelope_chars};
use crate::message::{MalformedMessage, Message, MessageView, ReplyRecord, ReplyRecordView};
use crate::observable_pattern::{Handler, Observable, Publisher};
use crate::service_utils::{
    decoded_part, get_payload_and_key, no_key_placeholder, no_payload_placeholder,
};

verus! {

/// The reply the echo handler owes for a message with image `m`: the envelope
/// around the decoded key and payload, targeted at the inbound topic with the
/// reply suffix appended, under the decoded key; or the malformed report when
/// a part of the message is not text.
pub open spec fn echo_reply(m: MessageView) -> Result<Option<ReplyRecordView>, MalformedMessage> {
    match decoded_part(m.key, no_key_placeholder()) {
        None => Err(MalformedMessage::InvalidKey),
        Some(key) => match decoded_part(m.payload, no_payload_placeholder()) {
            None => Err(MalformedMessage::InvalidPayload),
            Some(payload) => Ok(
                Some(
                    ReplyRecordView {
                        topic: m.topic + ".reply"@,
                        key: Some(key),
                        payload: envelope_chars(m.topic, key, payload),
                    },
                ),
            ),
        },
    }
}

/// A handler that echoes the inbound key and payload back to the reply topic
/// of the topic the message arrived on.
#[derive(Clone, Copy, Debug, PartialEq, Eq, Structural)]
pub struct EchoReplyHandler {}

impl Handler for EchoReplyHandler {
    open spec fn reply_spec(&self, m: MessageView) -> Result<
        Option<ReplyRecordView>,
        MalformedMessage,
    > {
        echo_reply(m)
    }

    fn handle(&self, topic: &str, message: &Message) -> (r: Result<
        Option<ReplyRecord>,
        MalformedMessage,
    >) {
        let (key, payload) = match get_payload_and_key(message) {
            Ok(text) => text,
            Err(e) => {
                return Err(e);
            },
        };
        let envelope = build_reply_envelope(topic, key.as_str(), payload.as_str());
        let mut reply_topic = topic.to_owned();
        reply_topic.append(REPLY_SUFFIX);
        Ok(Some(ReplyRecord { topic: reply_topic, key: Some(key), payload: envelope }))
    }
}

/// Registers the shipped services on a dispatch engine.
pub struct ServiceMethods {}

impl ServiceMethods {
    /// A registrar for the shipped services.
    pub fn new() -> (r: ServiceMethods) {
        ServiceMethods {}
    }

    /// Registers the echo handler for the two served topics. Meant to run at
    /// startup, before the consumption loop starts pulling messages.
    pub fn handlers<P: Publisher>(&self, observable: &mut Observable<EchoReplyHandler, P>)
        ensures
            final(observable).handlers() == old(observable).handlers().insert(
                "test"@,
                EchoReplyHandler {},
            ).insert("another"@, EchoReplyHandler {}),
            final(observable).events_log() == old(observable).events_log(),
            final(observable).attempts() == old(observable).attempts(),
    {
        observable.subscribe(TOPIC_TEST, EchoReplyHandler {});
        observable.subscribe(TOPIC_ANOTHER, EchoReplyHandler {});
    }
}

} // verus!
