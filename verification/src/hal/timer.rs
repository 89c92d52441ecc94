//! A hardware timer counting raw ticks.

use vstd::prelude::*;

verus! {

/// A timer with compare channels, counting raw ticks.
pub trait EngineTimer {
    type Error;

    /// The current counter value.
    fn counter(&self) -> u32;

    /// Sets the compare value of `channel`.
    fn set_compare(&mut self, channel: u8, ticks: u32) -> Result<(), Self::Error>;

    /// Enables the compare interrupt of `channel`.
    fn enable_compare_interrupt(&mut self, channel: u8);

    /// Clears the interrupt flag of `channel`.
    fn clear_interrupt(&mut self, channel: u8);

    /// The timer clock in hertz.
    fn frequency(&self) -> u32;
}

} // verus!
