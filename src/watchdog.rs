//! Liveness state shared between the control loop and its supervisor.
//!
//! The loop records a heartbeat as milliseconds since start; the supervisor
//! compares the time since the last heartbeat against a timeout.

use vstd::prelude::*;
use std::sync::Arc;
use std::sync::atomic::{AtomicU64, Ordering};
use std::time::Instant;

verus! {

/// Default supervisor timeout in seconds.
pub const DEFAULT_WATCHDOG_TIMEOUT_SECS: u64 = 10;

/// Declares `std::time::Instant` to Verus as an opaque type, carried as a value.
#[verifier::external_type_specification]
#[verifier::external_body]
pub struct ExInstant(std::time::Instant);

/// Relies on `Instant`'s `Clone`: `Instant` is `Copy`, so a clone is the same instant.
pub assume_specification[ <std::time::Instant as std::clone::Clone>::clone ](i: &std::time::Instant) -> (r: std::time::Instant)
    ensures
        r == *i,
;

/// Relies on `Instant::now`: reads the monotonic clock.
#[verifier::external_body]
pub(crate) fn instant_now() -> (r: Instant) {
    Instant::now()
}

/// Relies on `Instant::elapsed`: whole milliseconds since `start` on the
/// monotonic clock.
#[verifier::external_body]
pub(crate) fn millis_since(start: &Instant) -> (r: u64) {
    start.elapsed().as_millis() as u64
}

/// Milliseconds from the last heartbeat to now, or zero if the heartbeat is
/// later.
pub open spec fn gap_ms(last_heartbeat_ms: u64, current_time_ms: u64) -> int {
    if current_time_ms >= last_heartbeat_ms { current_time_ms - last_heartbeat_ms } else { 0 }
}

/// Whether the time since the last heartbeat exceeds the timeout.
pub fn check_timeout(last_heartbeat_ms: u64, current_time_ms: u64, timeout_ms: u64) -> (r: bool)
    ensures
        r == (gap_ms(last_heartbeat_ms, current_time_ms) > timeout_ms),
{
    time_between(last_heartbeat_ms, current_time_ms) > timeout_ms
}

/// Milliseconds from `last_heartbeat_ms` to `current_time_ms`, zero if negative.
pub fn time_between(last_heartbeat_ms: u64, current_time_ms: u64) -> (r: u64)
    ensures
        r as int == gap_ms(last_heartbeat_ms, current_time_ms),
{
    if current_time_ms >= last_heartbeat_ms { current_time_ms - last_heartbeat_ms } else { 0 }
}

/// Heartbeat cell shared by clones: a heartbeat on one is seen by all.
#[derive(Debug, Clone)]
pub struct WatchdogState {
    last_heartbeat_ms: Arc<AtomicU64>,
    start_time: Instant,
}

impl WatchdogState {
    /// A state whose last heartbeat is at start.
    pub fn new() -> (r: Self) {
        WatchdogState { last_heartbeat_ms: Arc::new(AtomicU64::new(0)), start_time: instant_now() }
    }

    /// Records a heartbeat now.
    pub fn heartbeat(&self) {
        let now = millis_since(&self.start_time);
        self.last_heartbeat_ms.store(now, Ordering::SeqCst);
    }

    /// Milliseconds since the last heartbeat.
    pub fn time_since_heartbeat_ms(&self) -> (r: u64) {
        let now = millis_since(&self.start_time);
        let last = self.last_heartbeat_ms.load(Ordering::SeqCst);
        time_between(last, now)
    }

    /// Whether more than `timeout_ms` passed since the last heartbeat.
    pub fn is_timed_out(&self, timeout_ms: u64) -> (r: bool) {
        let now = millis_since(&self.start_time);
        let last = self.last_heartbeat_ms.load(Ordering::SeqCst);
        check_timeout(last, now, timeout_ms)
    }
}

impl Default for WatchdogState {
    fn default() -> (r: Self) {
        WatchdogState::new()
    }
}

} // verus!
