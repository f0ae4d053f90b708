//! Configuration constants shared by the library and the surrounding program.

use vstd::prelude::*;

verus! {

/// Comma-separated bootstrap addresses of the broker cluster.
pub const BROKERS: &'static str = "localhost:9092,localhost:9093,localhost:9094";

/// Consumer group identifier used by the consumption loop.
pub const GROUP_ID: &'static str = "rust-consumer-group";

/// Log level under which this deployment runs.
pub const LOG_LEVEL: &'static str = "DEV";

/// Topic with a registered reference handler.
pub const TOPIC_TEST: &'static str = "test";

/// Second topic with a registered reference handler.
pub const TOPIC_ANOTHER: &'static str = "another";

/// Suffix appended to an inbound topic to name its reply topic.
pub const REPLY_SUFFIX: &'static str = ".reply";

/// How long a publish call waits for broker acknowledgment, in milliseconds.
pub const SEND_DEADLINE_MS: u64 = 1000;

} // verus!
