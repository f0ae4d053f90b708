//! Plain data carried through one dispatch call.
//!
//! An inbound [`Message`] is a copy of what the broker client handed the
//! consumption loop: a topic, optional key and payload bytes, and the
//! coordinates the broker assigned to the record. A [`ReplyRecord`] is what a
//! handler asks the publisher to send. A [`DispatchResult`] is the outcome of
//! one dispatch call; it is reported, never retried automatically.

use vstd::prelude::*;

verus! {

/// One inbound record, scoped to a single dispatch call.
pub struct Message {
    /// Name of the topic the record was consumed from.
    pub topic: String,
    /// Key bytes, if the record has a key.
    pub key: Option<Vec<u8>>,
    /// Payload bytes, if the record has a payload.
    pub payload: Option<Vec<u8>>,
    /// Partition the broker assigned to the record.
    pub partition: i32,
    /// Offset of the record within its partition.
    pub offset: i64,
}

/// Mathematical image of a [`Message`].
pub ghost struct MessageView {
    pub topic: Seq<char>,
    pub key: Option<Seq<u8>>,
    pub payload: Option<Seq<u8>>,
    pub partition: int,
    pub offset: int,
}

impl View for Message {
    type V = MessageView;

    open spec fn view(&self) -> MessageView {
        MessageView {
            topic: self.topic@,
            key: match self.key {
                Some(k) => Some(k@),
                None => None,
            },
            payload: match self.payload {
                Some(p) => Some(p@),
                None => None,
            },
            partition: self.partition as int,
            offset: self.offset as int,
        }
    }
}

/// A reply a handler wants published: target topic, optional key, and a
/// payload, here always a textual JSON envelope.
pub struct ReplyRecord {
    /// Name of the output topic the reply targets.
    pub topic: String,
    /// Key to publish the reply under.
    pub key: Option<String>,
    /// Reply payload.
    pub payload: String,
}

/// Mathematical image of a [`ReplyRecord`].
pub ghost struct ReplyRecordView {
    pub topic: Seq<char>,
    pub key: Option<Seq<char>>,
    pub payload: Seq<char>,
}

impl View for ReplyRecord {
    type V = ReplyRecordView;

    open spec fn view(&self) -> ReplyRecordView {
        ReplyRecordView {
            topic: self.topic@,
            key: match self.key {
                Some(k) => Some(k@),
                None => None,
            },
            payload: self.payload@,
        }
    }
}

/// Which part of an inbound message failed to decode as text.
///
/// A handler that requires text reports this instead of crashing the dispatch.
#[derive(Clone, Copy, Debug, PartialEq, Eq, Structural)]
pub enum MalformedMessage {
    /// The key bytes are not valid UTF-8.
    InvalidKey,
    /// The payload bytes are not valid UTF-8.
    InvalidPayload,
}

/// Why the publisher failed to send a reply.
#[derive(Clone, Copy, Debug, PartialEq, Eq, Structural)]
pub enum PublishError {
    /// The broker did not acknowledge the send before the deadline.
    Timeout,
    /// The broker rejected the send.
    Rejected,
}

/// Outcome of one dispatch call.
pub enum DispatchResult {
    /// The inbound topic has no registered handler; the message was skipped.
    NoHandler,
    /// The handler ran and chose not to reply.
    NoReply,
    /// The handler required text the message does not hold.
    Malformed(MalformedMessage),
    /// The reply was published; carries the partition and offset the broker
    /// assigned to it.
    HandledOk(i32, i64),
    /// The publish failed; carries the failure and the unsent record.
    HandledErr(PublishError, ReplyRecord),
}

/// Mathematical image of a [`DispatchResult`].
pub ghost enum DispatchResultView {
    NoHandler,
    NoReply,
    Malformed(MalformedMessage),
    HandledOk(int, int),
    HandledErr(PublishError, ReplyRecordView),
}

impl View for DispatchResult {
    type V = DispatchResultView;

    open spec fn view(&self) -> DispatchResultView {
        match self {
            DispatchResult::NoHandler => DispatchResultView::NoHandler,
            DispatchResult::NoReply => DispatchResultView::NoReply,
            DispatchResult::Malformed(m) => DispatchResultView::Malformed(*m),
            DispatchResult::HandledOk(p, o) => DispatchResultView::HandledOk(
                *p as int,
                *o as int,
            ),
            DispatchResult::HandledErr(e, r) => DispatchResultView::HandledErr(*e, r@),
        }
    }
}

} // verus!
