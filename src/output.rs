//! Pacing of the status stream, and the error message record.
//! Serialising and printing are left to the caller.

use vstd::prelude::*;
use vstd::string::*;
use std::time::Instant;
use crate::watchdog::{instant_now, millis_since};

verus! {

/// An error record of the status stream.
#[derive(Debug, Clone)]
pub struct ErrorOutput {
    /// Message kind: always `error`.
    pub msg_type: String,
    /// Error code for programs.
    pub code: String,
    /// Message for people.
    pub message: String,
}

impl ErrorOutput {
    /// An error record with the given code and message.
    pub fn new(code: &str, message: &str) -> (r: Self)
        ensures
            r.msg_type@ == "error"@,
            r.code@ == code@,
            r.message@ == message@,
    {
        ErrorOutput {
            msg_type: String::from_str("error"),
            code: String::from_str(code),
            message: String::from_str(message),
        }
    }
}

/// Whether a status message is due: always when none was written yet, else
/// once the interval has passed since the last one.
pub open spec fn output_due(since_last_ms: Option<u64>, interval_ms: u64) -> bool {
    match since_last_ms {
        None => true,
        Some(e) => e >= interval_ms,
    }
}

/// Whether a status message is due, given the milliseconds since the last
/// one (`None` when none was written).
pub fn is_output_due(since_last_ms: Option<u64>, interval_ms: u64) -> (r: bool)
    ensures
        r == output_due(since_last_ms, interval_ms),
{
    match since_last_ms {
        None => true,
        Some(e) => e >= interval_ms,
    }
}

/// Paces status messages to at most one per interval.
pub struct OutputWriter {
    start_time: Instant,
    output_interval_ms: u64,
    last_output: Option<Instant>,
}

impl OutputWriter {
    pub closed spec fn interval(&self) -> u64 {
        self.output_interval_ms
    }

    pub closed spec fn has_written(&self) -> bool {
        self.last_output.is_some()
    }

    /// A writer that has written nothing yet.
    pub fn new(output_interval_ms: u64) -> (r: Self)
        ensures
            r.interval() == output_interval_ms,
            !r.has_written(),
    {
        OutputWriter { start_time: instant_now(), output_interval_ms, last_output: None }
    }

    /// Milliseconds since the writer was made.
    pub fn uptime_ms(&self) -> (r: u64) {
        millis_since(&self.start_time)
    }

    /// Whether a status message is due now; always before the first one.
    pub fn should_output(&self) -> (r: bool)
        ensures
            !self.has_written() ==> r,
    {
        let since = match &self.last_output {
            Some(t) => Some(millis_since(t)),
            None => None,
        };
        is_output_due(since, self.output_interval_ms)
    }

    /// Records that a status message was written now.
    pub fn mark_output(&mut self)
        ensures
            final(self).has_written(),
            final(self).interval() == old(self).interval(),
    {
        self.last_output = Some(instant_now());
    }
}

} // verus!
