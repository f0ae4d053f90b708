//! Structured log events and the service that decides which to emit.
//!
//! The library never prints: components produce [`LogEvent`] values, and the
//! surrounding program decides how to render or ship them. [`LoggingService`]
//! carries the deployment's log level and filters the info and warn levels the
//! way the level list prescribes; errors always pass.

use vstd::prelude::*;

verus! {

/// Severity of one structured log event.
#[derive(Clone, Copy, Debug, PartialEq, Eq, Structural)]
pub enum LogLevel {
    Info,
    Warn,
    Error,
}

/// One structured log event: a severity, a correlation label, and a text.
pub struct LogEvent {
    /// Severity of the event.
    pub level: LogLevel,
    /// Correlation label, here the name of the section that emitted the event.
    pub label: String,
    /// Human-readable text of the event.
    pub text: String,
}

/// Mathematical image of a [`LogEvent`].
pub ghost struct LogEventView {
    pub level: LogLevel,
    pub label: Seq<char>,
    pub text: Seq<char>,
}

impl View for LogEvent {
    type V = LogEventView;

    open spec fn view(&self) -> LogEventView {
        LogEventView { level: self.level, label: self.label@, text: self.text@ }
    }
}

/// The views of a sequence of log events.
pub open spec fn events_view(events: Seq<LogEvent>) -> Seq<LogEventView> {
    events.map_values(|e: LogEvent| e@)
}

/// Appending one event to a log appends its view to the log's image.
pub proof fn lemma_events_view_push(events: Seq<LogEvent>, e: LogEvent)
    ensures
        events_view(events.push(e)) == events_view(events).push(e@),
{
    assert(events_view(events.push(e)) =~= events_view(events).push(e@));
}

/// Decides which log events a deployment emits.
///
/// Info and warn events pass only when the configured level is listed in
/// `log_for`; error events always pass.
pub struct LoggingService {
    /// Level this deployment runs under.
    pub log_level: String,
    /// Name of the section the service logs for; becomes the event label.
    pub name: String,
    /// Levels for which info and warn events are emitted.
    pub log_for: Vec<String>,
}

impl LoggingService {
    /// Whether info and warn events are emitted under the configured level.
    pub open spec fn enabled(&self) -> bool {
        exists|i: int| 0 <= i < self.log_for@.len() && self.log_for@[i]@ == self.log_level@
    }

    /// A fresh service that emits only errors, under an unknown section name.
    pub fn new() -> (r: Self)
        ensures
            r.log_level@ == "PROD"@,
            r.name@ == "UNKNOWN SECTION"@,
            r.log_for@.len() == 0,
            !r.enabled(),
    {
        LoggingService {
            log_level: "PROD".to_owned(),
            name: "UNKNOWN SECTION".to_owned(),
            log_for: Vec::new(),
        }
    }

    /// Whether the configured level is in the `log_for` list.
    pub fn is_enabled(&self) -> (r: bool)
        ensures
            r == self.enabled(),
    {
        let n = self.log_for.len();
        let mut i: usize = 0;
        while i < n
            invariant
                n == self.log_for@.len(),
                0 <= i <= n,
                forall|j: int| 0 <= j < i ==> self.log_for@[j]@ != self.log_level@,
            decreases n - i,
        {
            if self.log_for[i] == self.log_level {
                return true;
            }
            i = i + 1;
        }
        false
    }

    /// An info event for `message`, or nothing when the level is filtered out.
    pub fn log(&self, message: &str) -> (r: Option<LogEvent>)
        ensures
            r is Some <==> self.enabled(),
            r matches Some(e) ==> e@ == (LogEventView {
                level: LogLevel::Info,
                label: self.name@,
                text: message@,
            }),
    {
        if self.is_enabled() {
            Some(LogEvent { level: LogLevel::Info, label: self.name.clone(), text: message.to_owned() })
        } else {
            None
        }
    }

    /// A warn event for `message`, or nothing when the level is filtered out.
    pub fn warn(&self, message: &str) -> (r: Option<LogEvent>)
        ensures
            r is Some <==> self.enabled(),
            r matches Some(e) ==> e@ == (LogEventView {
                level: LogLevel::Warn,
                label: self.name@,
                text: message@,
            }),
    {
        if self.is_enabled() {
            Some(LogEvent { level: LogLevel::Warn, label: self.name.clone(), text: message.to_owned() })
        } else {
            None
        }
    }

    /// An error event for `message`; errors are never filtered.
    pub fn error(&self, message: &str) -> (r: LogEvent)
        ensures
            r@ == (LogEventView { level: LogLevel::Error, label: self.name@, text: message@ }),
    {
        LogEvent { level: LogLevel::Error, label: self.name.clone(), text: message.to_owned() }
    }

    /// A deep copy of the service.
    pub fn clone(&self) -> (r: Self)
        ensures
            r.log_level@ == self.log_level@,
            r.name@ == self.name@,
            r.log_for@.len() == self.log_for@.len(),
            forall|i: int| 0 <= i < self.log_for@.len() ==> r.log_for@[i]@ == self.log_for@[i]@,
            r.enabled() == self.enabled(),
    {
        let n = self.log_for.len();
        let mut log_for: Vec<String> = Vec::new();
        let mut i: usize = 0;
        while i < n
            invariant
                n == self.log_for@.len(),
                0 <= i <= n,
                log_for@.len() == i,
                forall|j: int| 0 <= j < i ==> log_for@[j]@ == self.log_for@[j]@,
            decreases n - i,
        {
            log_for.push(self.log_for[i].clone());
            i = i + 1;
        }
        let r = LoggingService { log_level: self.log_level.clone(), name: self.name.clone(), log_for };
        proof {
            if self.enabled() {
                let i = choose|i: int|
                    0 <= i < self.log_for@.len() && self.log_for@[i]@ == self.log_level@;
                assert(r.log_for@[i]@ == r.log_level@);
            }
            if r.enabled() {
                let i = choose|i: int|
                    0 <= i < r.log_for@.len() && r.log_for@[i]@ == r.log_level@;
                assert(self.log_for@[i]@ == self.log_level@);
            }
        }
        r
    }
}

} // verus!
