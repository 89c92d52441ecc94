//! The independent watchdog.

use vstd::prelude::*;

verus! {

/// A watchdog that resets the controller unless fed in time.
pub trait Watchdog {
    /// Starts the watchdog with a timeout in milliseconds.
    fn init(&mut self, timeout_ms: u32);

    /// Restarts the timeout.
    fn feed(&mut self);
}

} // verus!
