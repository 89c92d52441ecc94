//! Placeholder drivers for the Renesas RA8 family: the timer always reads
//! zero and every configuration is accepted.

use crate::hal::engine_timer::EngineTimer;
use crate::hal::peak_and_hold_pwm::PeakAndHoldPwm;
use core::convert::Infallible;
use vstd::prelude::*;

verus! {

/// The RA8 engine timer.
pub struct RenesasEngineTimer;

impl EngineTimer for RenesasEngineTimer {
    type Error = Infallible;

    /// Always zero.
    fn counter_us(&self) -> (c: u32)
        ensures
            c == 0,
    {
        0
    }

    /// Accepts every compare value.
    fn set_compare_us(&mut self, _channel: u8, _ticks_us: u32) -> (r: Result<(), Infallible>)
        ensures
            r is Ok,
    {
        Ok(())
    }

    fn enable_compare_interrupt(&mut self, _channel: u8) {
    }

    fn clear_interrupt_flag(&mut self, _channel: u8) {
    }

    /// One tick per microsecond.
    fn ticks_per_us(&self) -> (t: u32)
        ensures
            t == 1,
    {
        1
    }
}

/// The RA8 injector driver.
pub struct RenesasPeakAndHoldPwm;

impl PeakAndHoldPwm for RenesasPeakAndHoldPwm {
    type Error = Infallible;

    /// An eight-bit duty cycle.
    fn max_duty_cycle(&self) -> (m: u16)
        ensures
            m == 255,
    {
        255
    }

    /// Accepts every duty cycle.
    fn set_duty_cycle(&mut self, _duty: u16) -> (r: Result<(), Infallible>)
        ensures
            r is Ok,
    {
        Ok(())
    }

    /// Accepts every peak-and-hold configuration.
    fn configure_peak_hold(&mut self, _peak_time_us: u16, _hold_duty_percent: u8) -> (r: Result<(), Infallible>)
        ensures
            r is Ok,
    {
        Ok(())
    }
}

} // verus!
