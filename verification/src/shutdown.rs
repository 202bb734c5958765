//! Shutdown sources: configurations for the handlers that end an agent run.
//! Waiting for the signal itself (an interrupt, or the passage of time) is
//! I/O performed by the composing layer; the library holds each handler's
//! configuration.

use vstd::prelude::*;

verus! {

/// A handler that ends the agent run when the external interrupt signal
/// arrives. This is the default shutdown handler.
#[derive(Debug)]
pub struct CtrlCShutdown;

impl CtrlCShutdown {
    /// Creates the interrupt-signal handler.
    pub fn new() -> Self {
        Self
    }
}

/// A handler that ends the agent run after a fixed duration.
#[derive(Debug)]
pub struct TimeBasedShutdown {
    duration: u64,
}

impl TimeBasedShutdown {
    /// The duration after which the handler triggers, in milliseconds.
    pub closed spec fn spec_duration_ms(&self) -> u64 {
        self.duration
    }

    /// Creates a handler that triggers a shutdown after the given duration,
    /// in milliseconds.
    pub fn new(duration: u64) -> (r: Self)
        ensures
            r.spec_duration_ms() == duration,
    {
        Self { duration }
    }

    /// The duration after which the handler triggers, in milliseconds.
    pub fn duration_ms(&self) -> (r: u64)
        ensures
            r == self.spec_duration_ms(),
    {
        self.duration
    }
}

} // verus!
