//! Reading text out of an inbound message, and interpreting a publish result.
//!
//! Handlers that work on text read the key and payload through
//! [`get_payload_and_key`]: a missing part is replaced by a fixed placeholder,
//! and a part that is not valid UTF-8 is reported as a
//! [`MalformedMessage`] instead of crashing the dispatch.
//! [`return_result`] turns the outcome of one publish attempt into the
//! dispatch result and the one log event that reports it.

use vstd::prelude::*;
use vstd::string::StringExecFns;
use vstd::utf8::{decode_utf8, valid_utf8};

use crate::logger::{LogEvent, LogEventView, LogLevel};
use crate::message::{
    DispatchResult, DispatchResultView, MalformedMessage, Message, PublishError, ReplyRecord,
    ReplyRecordView,
};

verus! {

/// Relies on `std::str::from_utf8`: it returns `Ok` exactly on valid UTF-8
/// and decodes the bytes into their character sequence.
#[verifier::external_body]
fn bytes_to_text<'a>(bytes: &'a [u8]) -> (r: Option<&'a str>)
    ensures
        r is Some <==> valid_utf8(bytes@),
        r matches Some(s) ==> s@ == decode_utf8(bytes@),
{
    std::str::from_utf8(bytes).ok()
}

/// The text a handler reads out of one optional part of a message: the
/// placeholder when the part is missing, the decoded characters when it is
/// valid UTF-8, and nothing when it is not.
pub open spec fn decoded_part(part: Option<Seq<u8>>, placeholder: Seq<char>) -> Option<Seq<char>> {
    match part {
        None => Some(placeholder),
        Some(bytes) => if valid_utf8(bytes) {
            Some(decode_utf8(bytes))
        } else {
            None
        },
    }
}

/// Placeholder text used when a message has no key.
pub open spec fn no_key_placeholder() -> Seq<char> {
    "No Key Found"@
}

/// Placeholder text used when a message has no payload.
pub open spec fn no_payload_placeholder() -> Seq<char> {
    "No Payload Found"@
}

/// The key and payload of `message` as text.
///
/// A missing key or payload is replaced by its placeholder. A key or payload
/// that is not valid UTF-8 yields the matching [`MalformedMessage`]; the key
/// is examined first.
pub fn get_payload_and_key(message: &Message) -> (r: Result<(String, String), MalformedMessage>)
    ensures
        match r {
            Ok((key, payload)) => {
                &&& decoded_part(message@.key, no_key_placeholder()) == Some(key@)
                &&& decoded_part(message@.payload, no_payload_placeholder()) == Some(payload@)
            },
            Err(MalformedMessage::InvalidKey) => decoded_part(
                message@.key,
                no_key_placeholder(),
            ) is None,
            Err(MalformedMessage::InvalidPayload) => {
                &&& decoded_part(message@.key, no_key_placeholder()) is Some
                &&& decoded_part(message@.payload, no_payload_placeholder()) is None
            },
        },
{
    let key: String = match &message.key {
        None => "No Key Found".to_owned(),
        Some(bytes) => match bytes_to_text(bytes.as_slice()) {
            Some(text) => text.to_owned(),
            None => {
                return Err(MalformedMessage::InvalidKey);
            },
        },
    };
    let payload: String = match &message.payload {
        None => "No Payload Found".to_owned(),
        Some(bytes) => match bytes_to_text(bytes.as_slice()) {
            Some(text) => text.to_owned(),
            None => {
                return Err(MalformedMessage::InvalidPayload);
            },
        },
    };
    Ok((key, payload))
}

/// The dispatch result owed for one publish attempt at `record`: success
/// carries the coordinates the broker assigned, failure carries the failure
/// and the unsent record.
pub open spec fn publish_outcome(
    record: ReplyRecordView,
    result: Result<(i32, i64), PublishError>,
) -> DispatchResultView {
    match result {
        Ok(coords) => DispatchResultView::HandledOk(coords.0 as int, coords.1 as int),
        Err(e) => DispatchResultView::HandledErr(e, record),
    }
}

/// The one log event owed when the publish attempt at `record` succeeded.
pub open spec fn publish_ok_event(record: ReplyRecordView) -> LogEventView {
    LogEventView {
        level: LogLevel::Info,
        label: record.topic,
        text: "Response sent to: "@ + record.topic,
    }
}

/// The text naming one publish failure.
pub open spec fn publish_error_text(error: PublishError) -> Seq<char> {
    match error {
        PublishError::Timeout => "timed out waiting for broker acknowledgment"@,
        PublishError::Rejected => "rejected by the broker"@,
    }
}

/// The one log event owed when the publish attempt at `record` failed: it
/// names the target topic and the underlying broker error.
pub open spec fn publish_err_event(record: ReplyRecordView, error: PublishError) -> LogEventView {
    LogEventView {
        level: LogLevel::Error,
        label: record.topic,
        text: "Error sending response to -> "@ + record.topic + ": "@ + publish_error_text(error),
    }
}

/// The one log event owed for one publish attempt at `record`.
pub open spec fn publish_event(
    record: ReplyRecordView,
    result: Result<(i32, i64), PublishError>,
) -> LogEventView {
    match result {
        Ok(coords) => publish_ok_event(record),
        Err(e) => publish_err_event(record, e),
    }
}

/// Turns the outcome of the publish attempt at `record` into the dispatch
/// result and the one log event that reports it. No retry is derived from a
/// failure: the unsent record is surfaced to the caller instead.
pub fn return_result(result: Result<(i32, i64), PublishError>, record: ReplyRecord) -> (r: (
    DispatchResult,
    LogEvent,
))
    ensures
        r.0@ == publish_outcome(record@, result),
        r.1@ == publish_event(record@, result),
{
    match result {
        Ok((partition, offset)) => {
            let mut text = "Response sent to: ".to_owned();
            text.append(record.topic.as_str());
            let event = LogEvent { level: LogLevel::Info, label: record.topic, text };
            (DispatchResult::HandledOk(partition, offset), event)
        },
        Err(e) => {
            let mut text = "Error sending response to -> ".to_owned();
            text.append(record.topic.as_str());
            text.append(": ");
            match e {
                PublishError::Timeout => text.append("timed out waiting for broker acknowledgment"),
                PublishError::Rejected => text.append("rejected by the broker"),
            }
            let label = record.topic.clone();
            let event = LogEvent { level: LogLevel::Error, label, text };
            (DispatchResult::HandledErr(e, record), event)
        },
    }
}

} // verus!
