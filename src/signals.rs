//! Flags raised by signal listeners and read by the control loop.

use vstd::prelude::*;
use std::sync::Arc;
use std::sync::atomic::{AtomicBool, Ordering};

verus! {

/// Shutdown and status-dump flags, shared by clones.
#[derive(Debug, Clone)]
pub struct SignalState {
    shutdown_requested: Arc<AtomicBool>,
    force_status: Arc<AtomicBool>,
}

impl SignalState {
    /// Both flags lowered.
    pub fn new() -> (r: Self) {
        SignalState {
            shutdown_requested: Arc::new(AtomicBool::new(false)),
            force_status: Arc::new(AtomicBool::new(false)),
        }
    }

    /// Whether shutdown was requested.
    pub fn is_shutdown_requested(&self) -> (r: bool) {
        self.shutdown_requested.load(Ordering::SeqCst)
    }

    /// Raises the shutdown flag; it stays raised.
    pub fn request_shutdown(&self) {
        self.shutdown_requested.store(true, Ordering::SeqCst);
    }

    /// Returns whether a status dump was asked for since the last call, and
    /// lowers the flag.
    pub fn take_force_status(&self) -> (r: bool) {
        self.force_status.swap(false, Ordering::SeqCst)
    }

    /// Asks for a status dump.
    pub fn set_force_status(&self) {
        self.force_status.store(true, Ordering::SeqCst);
    }

    /// Lowers both flags.
    pub fn reset(&self) {
        self.shutdown_requested.store(false, Ordering::SeqCst);
        self.force_status.store(false, Ordering::SeqCst);
    }
}

impl Default for SignalState {
    fn default() -> (r: Self) {
        SignalState::new()
    }
}

/// Owner of the flags that the signal listeners raise.
pub struct SignalHandler {
    state: SignalState,
}

impl SignalHandler {
    pub closed spec fn spec_state(&self) -> SignalState {
        self.state
    }

    /// A handler over the given flags.
    pub fn new(state: SignalState) -> (r: Self)
        ensures
            r.spec_state() == state,
    {
        SignalHandler { state }
    }

    /// The flags.
    pub fn state(&self) -> (r: &SignalState)
        ensures
            *r == self.spec_state(),
    {
        &self.state
    }
}

} // verus!
