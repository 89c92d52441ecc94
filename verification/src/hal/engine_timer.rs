//! A microsecond-resolution timer for scheduling ignition and injection.

use vstd::prelude::*;

verus! {

/// An error of a timer operation.
#[derive(Debug, Clone, Copy, PartialEq, Eq, Structural)]
pub enum TimerError {
    /// The requested channel is not available.
    InvalidChannel,
    /// An underlying hardware error occurred.
    HardwareError,
}

/// A hardware timer with compare-match interrupts, counting microseconds.
pub trait EngineTimer {
    type Error: core::fmt::Debug;

    /// The current counter value in microseconds.
    fn counter_us(&self) -> u32;

    /// Arms the compare match of `channel` at `ticks_us`.
    fn set_compare_us(&mut self, channel: u8, ticks_us: u32) -> Result<(), Self::Error>;

    /// Enables the compare-match interrupt of `channel`.
    fn enable_compare_interrupt(&mut self, channel: u8);

    /// Clears the interrupt flag of `channel`; called from the handler.
    fn clear_interrupt_flag(&mut self, channel: u8);

    /// Timer ticks per microsecond.
    fn ticks_per_us(&self) -> u32;
}

} // verus!
