//! A message-driven request/reply bridge.
//!
//! The crate consumes records from named input topics, routes each record to
//! exactly one topic-specific handler, lets the handler transform the payload,
//! and publishes a reply record to a corresponding output topic. The core is
//! the dispatch engine in [`observable_pattern`]: it owns the topic-to-handler
//! registry and the reply publisher, and orchestrates delivery of the reply,
//! including partial-failure handling when the outbound send fails.
//!
//! Broker connections, offset management and log rendering are collaborators
//! outside this crate; the engine works on plain message values and emits
//! structured log events.

pub mod constants;
pub mod envelope;
pub mod logger;
pub mod message;
pub mod observable_pattern;
pub mod service_utils;
pub mod test_service;
