//! Peak-and-hold drive of injector coils.

use vstd::prelude::*;

verus! {

/// A PWM output that can drive injectors with a peak current phase
/// followed by a reduced hold duty cycle.
pub trait PeakAndHoldPwm {
    type Error;

    /// The duty-cycle value that means fully on.
    fn max_duty_cycle(&self) -> u16;

    /// Sets the duty cycle, between zero and `max_duty_cycle`.
    fn set_duty_cycle(&mut self, duty: u16) -> Result<(), Self::Error>;

    /// Configures the peak time and the hold duty cycle in percent.
    fn configure_peak_hold(&mut self, peak_time_us: u16, hold_duty_percent: u8) -> Result<(), Self::Error>;
}

} // verus!
