//! The dispatch engine.
//!
//! [`Observable`] owns the topic-to-handler [`Registry`] and the reply
//! [`Publisher`]. [`Observable::emit`] routes one inbound message: it looks
//! the topic up, runs the registered [`Handler`], hands the handler's reply to
//! the publisher with a bounded deadline, and reports the outcome as a
//! [`DispatchResult`] together with exactly one log event. Unmatched topics
//! are skipped, and a publish failure surfaces the unsent record; neither is
//! retried nor escalated.

use vstd::prelude::*;
use vstd::string::StringExecFns;

use crate::constants::SEND_DEADLINE_MS;
use crate::logger::{events_view, lemma_events_view_push, LogEvent, LogEventView, LogLevel};
use crate::message::{
    DispatchResult, DispatchResultView, MalformedMessage, Message, MessageView, PublishError,
    ReplyRecord, ReplyRecordView,
};
use crate::service_utils::{publish_err_event, publish_ok_event, return_result};

verus! {

/// The mapping a sequence of registration entries amounts to: later entries
/// override earlier ones with the same topic.
pub open spec fn entries_map<H>(entries: Seq<(String, H)>) -> Map<Seq<char>, H>
    decreases entries.len(),
{
    if entries.len() == 0 {
        Map::empty()
    } else {
        entries_map(entries.drop_last()).insert(entries.last().0@, entries.last().1)
    }
}

/// The topic-to-handler mapping: at most one handler answers for a topic, and
/// the last registration for a topic wins.
pub struct Registry<H> {
    entries: Vec<(String, H)>,
}

impl<H> View for Registry<H> {
    type V = Map<Seq<char>, H>;

    closed spec fn view(&self) -> Map<Seq<char>, H> {
        entries_map(self.entries@)
    }
}

/// Entries at positions `j` and above never mention `topic`, so they do not
/// affect what the mapping holds under `topic`.
proof fn lemma_entries_map_prefix<H>(entries: Seq<(String, H)>, topic: Seq<char>, j: int)
    requires
        0 <= j <= entries.len(),
        forall|i: int| j <= i < entries.len() ==> entries[i].0@ != topic,
    ensures
        entries_map(entries).contains_key(topic) == entries_map(
            entries.take(j),
        ).contains_key(topic),
        entries_map(entries).contains_key(topic) ==> entries_map(entries)[topic] == entries_map(
            entries.take(j),
        )[topic],
    decreases entries.len() - j,
{
    if j == entries.len() {
        assert(entries.take(j) =~= entries);
    } else {
        lemma_entries_map_prefix(entries, topic, j + 1);
        let upto = entries.take(j + 1);
        assert(upto.last() == entries[j]);
        assert(upto.drop_last() =~= entries.take(j));
    }
}

impl<H> Registry<H> {
    /// An empty registry.
    pub fn new() -> (r: Self)
        ensures
            r@ == Map::<Seq<char>, H>::empty(),
    {
        Registry { entries: Vec::new() }
    }

    /// Stores `handler` under `topic`. A handler already registered for
    /// `topic` is replaced without a warning; every other topic is untouched.
    pub fn register(&mut self, topic: &str, handler: H)
        ensures
            final(self)@ == old(self)@.insert(topic@, handler),
    {
        let ghost old_entries = self.entries@;
        self.entries.push((topic.to_owned(), handler));
        proof {
            assert(self.entries@.drop_last() =~= old_entries);
        }
    }

    /// The handler registered for `topic`, if any.
    pub fn lookup<'a>(&'a self, topic: &String) -> (r: Option<&'a H>)
        ensures
            match r {
                Some(h) => self@.contains_key(topic@) && *h == self@[topic@],
                None => !self@.contains_key(topic@),
            },
    {
        let mut j: usize = self.entries.len();
        while j > 0
            invariant
                j <= self.entries@.len(),
                forall|i: int| j <= i < self.entries@.len() ==> self.entries@[i].0@ != topic@,
            decreases j,
        {
            j = j - 1;
            if self.entries[j].0 == *topic {
                proof {
                    lemma_entries_map_prefix(self.entries@, topic@, j + 1);
                    let upto = self.entries@.take(j + 1);
                    assert(upto.last() == self.entries@[j as int]);
                    assert(entries_map(upto)[topic@] == self.entries@[j as int].1);
                }
                return Some(&self.entries[j].1);
            }
        }
        proof {
            lemma_entries_map_prefix(self.entries@, topic@, 0);
            assert(self.entries@.take(0) =~= Seq::<(String, H)>::empty());
        }
        None
    }
}

/// The capability the engine uses to send one reply record to the broker.
///
/// A call waits at most `deadline_ms` for broker acknowledgment; expiry
/// surfaces as [`PublishError::Timeout`], never as a hang. Nothing is assumed
/// about the outcome of a call: the engine states what it does with every
/// possible one.
pub trait Publisher: Sized {
    /// Sends `record` and returns the partition and offset the broker
    /// assigned, or the failure.
    fn publish(&mut self, record: &ReplyRecord, deadline_ms: u64) -> (r: Result<
        (i32, i64),
        PublishError,
    >);
}

/// The image of one handler result.
pub open spec fn reply_view(r: Result<Option<ReplyRecord>, MalformedMessage>) -> Result<
    Option<ReplyRecordView>,
    MalformedMessage,
> {
    match r {
        Ok(Some(record)) => Ok(Some(record@)),
        Ok(None) => Ok(None),
        Err(e) => Err(e),
    }
}

/// The per-topic unit of business logic.
///
/// A handler turns one inbound message into at most one reply record, or
/// reports the message as malformed; which of these it owes for a given
/// message is pinned by [`Handler::reply_spec`].
pub trait Handler: Sized {
    /// The reply owed for a message with image `m`.
    spec fn reply_spec(&self, m: MessageView) -> Result<Option<ReplyRecordView>, MalformedMessage>;

    /// Turns one inbound message into at most one reply record. The handler
    /// sees the message unaltered and must not retain it past the call.
    fn handle(&self, topic: &str, message: &Message) -> (r: Result<
        Option<ReplyRecord>,
        MalformedMessage,
    >)
        requires
            topic@ == message@.topic,
        ensures
            reply_view(r) == self.reply_spec(message@),
    ;
}

/// The one log event owed when a topic has no registered handler.
pub open spec fn no_handler_event(topic: Seq<char>) -> LogEventView {
    LogEventView {
        level: LogLevel::Warn,
        label: topic,
        text: "no handler for topic: "@ + topic,
    }
}

/// The one log event owed when the handler reported the message malformed.
pub open spec fn malformed_event(topic: Seq<char>) -> LogEventView {
    LogEventView {
        level: LogLevel::Error,
        label: topic,
        text: "malformed message on topic: "@ + topic,
    }
}

/// The one log event owed when the handler chose not to reply.
pub open spec fn no_reply_event(topic: Seq<char>) -> LogEventView {
    LogEventView {
        level: LogLevel::Info,
        label: topic,
        text: "no reply for topic: "@ + topic,
    }
}

/// An event whose label is `topic` and whose text is `prefix` followed by
/// `topic`.
fn topic_event(level: LogLevel, prefix: &str, topic: &String) -> (r: LogEvent)
    ensures
        r@ == (LogEventView { level: level, label: topic@, text: prefix@ + topic@ }),
{
    let mut text = prefix.to_owned();
    text.append(topic.as_str());
    LogEvent { level, label: topic.clone(), text }
}

/// Law: re-registering a handler for a topic replaces the previous one.
/// After storing `h1` and then `h2` under `topic`, the mapping is the same as
/// if only `h2` had been stored: `topic` answers with `h2` alone, and every
/// other topic is untouched.
pub proof fn lemma_reregistration_replaces<H>(
    reg: Map<Seq<char>, H>,
    topic: Seq<char>,
    h1: H,
    h2: H,
)
    ensures
        reg.insert(topic, h1).insert(topic, h2) == reg.insert(topic, h2),
        reg.insert(topic, h1).insert(topic, h2)[topic] == h2,
{
    assert(reg.insert(topic, h1).insert(topic, h2) =~= reg.insert(topic, h2));
}

/// The dispatch engine: the registry, the publisher it owns, the structured
/// log events it has emitted, and the record of its publish attempts.
pub struct Observable<H: Handler, P: Publisher> {
    registry: Registry<H>,
    publisher: P,
    events: Vec<LogEvent>,
    attempt_log: Ghost<Seq<(ReplyRecordView, u64)>>,
}

impl<H: Handler, P: Publisher> Observable<H, P> {
    /// The topic-to-handler mapping.
    pub closed spec fn handlers(&self) -> Map<Seq<char>, H> {
        self.registry@
    }

    /// The images of the structured log events emitted so far, oldest first.
    pub closed spec fn events_log(&self) -> Seq<LogEventView> {
        events_view(self.events@)
    }

    /// The publish attempts made so far, oldest first: the image of each
    /// reply record handed to the publisher, paired with the deadline handed
    /// with it. Dispatching never retries and never deduplicates: every
    /// planned reply becomes exactly one entry here.
    pub closed spec fn attempts(&self) -> Seq<(ReplyRecordView, u64)> {
        self.attempt_log@
    }

    /// An engine with no handlers that owns `publisher`.
    pub fn new(publisher: P) -> (r: Self)
        ensures
            r.handlers() == Map::<Seq<char>, H>::empty(),
            r.events_log() == Seq::<LogEventView>::empty(),
            r.attempts() == Seq::<(ReplyRecordView, u64)>::empty(),
    {
        let r = Observable {
            registry: Registry::new(),
            publisher,
            events: Vec::new(),
            attempt_log: Ghost(Seq::empty()),
        };
        proof {
            assert(events_view(r.events@) =~= Seq::<LogEventView>::empty());
        }
        r
    }

    /// Stores `handler` as the one handler for `topic`. A handler already
    /// registered for `topic` is replaced without a warning; every other
    /// topic is untouched. Registration is meant to finish before messages
    /// start to arrive.
    pub fn subscribe(&mut self, topic: &str, handler: H)
        ensures
            final(self).handlers() == old(self).handlers().insert(topic@, handler),
            final(self).events_log() == old(self).events_log(),
            final(self).attempts() == old(self).attempts(),
    {
        self.registry.register(topic, handler);
    }

    /// Takes the emitted events out, oldest first, leaving the event log
    /// empty. Rendering the events is the caller's concern.
    pub fn take_events(&mut self) -> (r: Vec<LogEvent>)
        ensures
            events_view(r@) == old(self).events_log(),
            final(self).events_log() == Seq::<LogEventView>::empty(),
            final(self).handlers() == old(self).handlers(),
            final(self).attempts() == old(self).attempts(),
    {
        let r = self.events.split_off(0);
        proof {
            assert(r@ =~= old(self).events@);
            assert(events_view(self.events@) =~= Seq::<LogEventView>::empty());
        }
        r
    }

    /// Routes one inbound message.
    ///
    /// The topic is looked up in the registry. With no handler registered the
    /// message is skipped: no publish attempt is made, one warn event is
    /// emitted, and the result is `NoHandler`. Otherwise the registered
    /// handler runs exactly once, on the message unaltered. A malformed
    /// report or a no-reply decision again makes no publish attempt and emits
    /// one event. A reply record is handed to the publisher exactly once,
    /// with the bounded deadline `SEND_DEADLINE_MS`, as the attempt log
    /// records; success returns `HandledOk` with the
    /// coordinates the publisher reported and emits one success event, and
    /// failure returns `HandledErr` with the unsent record and emits one
    /// error event. Nothing is retried.
    pub fn emit(&mut self, message: &Message) -> (r: DispatchResult)
        ensures
            final(self).handlers() == old(self).handlers(),
            ({
                let reg = old(self).handlers();
                let m = message@;
                if !reg.contains_key(m.topic) {
                    &&& r@ == DispatchResultView::NoHandler
                    &&& final(self).events_log() == old(self).events_log().push(
                        no_handler_event(m.topic),
                    )
                    &&& final(self).attempts() == old(self).attempts()
                } else {
                    match reg[m.topic].reply_spec(m) {
                        Err(e) => {
                            &&& r@ == DispatchResultView::Malformed(e)
                            &&& final(self).events_log() == old(self).events_log().push(
                                malformed_event(m.topic),
                            )
                            &&& final(self).attempts() == old(self).attempts()
                        },
                        Ok(None) => {
                            &&& r@ == DispatchResultView::NoReply
                            &&& final(self).events_log() == old(self).events_log().push(
                                no_reply_event(m.topic),
                            )
                            &&& final(self).attempts() == old(self).attempts()
                        },
                        Ok(Some(record)) => {
                            &&& final(self).attempts() == old(self).attempts().push(
                                (record, SEND_DEADLINE_MS),
                            )
                            &&& match r@ {
                                DispatchResultView::HandledOk(p, o) => final(self).events_log()
                                    == old(self).events_log().push(publish_ok_event(record)),
                                DispatchResultView::HandledErr(e, sent) => {
                                    &&& sent == record
                                    &&& final(self).events_log() == old(self).events_log().push(
                                        publish_err_event(record, e),
                                    )
                                },
                                _ => false,
                            }
                        },
                    }
                }
            }),
    {
        let handled: Option<Result<Option<ReplyRecord>, MalformedMessage>> = match self
            .registry
            .lookup(&message.topic) {
            None => None,
            Some(handler) => Some(handler.handle(message.topic.as_str(), message)),
        };
        match handled {
            None => {
                let event = topic_event(LogLevel::Warn, "no handler for topic: ", &message.topic);
                proof {
                    lemma_events_view_push(self.events@, event);
                }
                self.events.push(event);
                DispatchResult::NoHandler
            },
            Some(Err(e)) => {
                let event = topic_event(
                    LogLevel::Error,
                    "malformed message on topic: ",
                    &message.topic,
                );
                proof {
                    lemma_events_view_push(self.events@, event);
                }
                self.events.push(event);
                DispatchResult::Malformed(e)
            },
            Some(Ok(None)) => {
                let event = topic_event(LogLevel::Info, "no reply for topic: ", &message.topic);
                proof {
                    lemma_events_view_push(self.events@, event);
                }
                self.events.push(event);
                DispatchResult::NoReply
            },
            Some(Ok(Some(record))) => {
                let outcome = self.publisher.publish(&record, SEND_DEADLINE_MS);
                proof {
                    self.attempt_log@ = self.attempt_log@.push((record@, SEND_DEADLINE_MS));
                }
                let (result, event) = return_result(outcome, record);
                proof {
                    lemma_events_view_push(self.events@, event);
                }
                self.events.push(event);
                result
            },
        }
    }
}

} // verus!
