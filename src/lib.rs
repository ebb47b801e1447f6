//! Setup-time logic for a graphics API context: sorting the queue families
//! of the available devices into capability buckets, rendering the report of
//! those buckets, composing diagnostic log entries, and describing the
//! instance to request.

pub mod queues;
pub mod report;
pub mod diagnostics;
pub mod setup;
