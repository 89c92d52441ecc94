//! Hardware abstraction traits of the engine controller and their mock
//! implementations.

use vstd::prelude::*;

pub mod adc;
pub mod engine_timer;
pub mod flash;
pub mod mock;
pub mod peak_and_hold_pwm;
pub mod timer;
pub mod transport;
pub mod watchdog;

verus! {

/// A CAN frame as exchanged with a `CanBus`.
#[derive(Debug, Clone, Copy, PartialEq, Eq, Structural)]
pub struct CanFrame;

/// A multi-channel analog-to-digital converter.
pub trait HighResAdc {
    type Error;

    /// Samples one channel.
    fn read_channel(&mut self, channel: u8) -> Result<u16, Self::Error>;

    /// Whether a transfer into a buffer of `len` elements is within what
    /// the converter can sample.
    spec fn accepts_transfer(&self, len: nat) -> bool;

    /// Samples consecutive channels into `buffer`, one per element.
    fn read_all_dma(&mut self, buffer: &mut [u16]) -> Result<(), Self::Error>
        requires
            old(self).accepts_transfer(old(buffer)@.len()),
    ;
}

/// A free-running timer with compare channels.
pub trait EngineTimer {
    type Error;

    /// Sets the counting frequency.
    fn set_frequency(&mut self, freq_hz: u32) -> Result<(), Self::Error>;

    /// Sets the compare value of a channel.
    fn set_compare(&mut self, channel: u8, ticks: u32) -> Result<(), Self::Error>;

    /// The current counter value.
    fn get_counter(&self) -> u32;

    /// Enables the timer interrupt.
    fn enable_interrupt(&mut self) -> Result<(), Self::Error>;
}

/// Input capture of crank and cam edges.
pub trait TriggerCapture {
    type Error;

    /// Whether the next rising-edge capture can be taken.
    spec fn can_capture_rising(&self) -> bool;

    /// Whether the next falling-edge capture can be taken.
    spec fn can_capture_falling(&self) -> bool;

    /// The timer value at the latest rising edge.
    fn capture_rising_edge(&mut self) -> Result<u32, Self::Error>
        requires
            old(self).can_capture_rising(),
    ;

    /// The timer value at the latest falling edge.
    fn capture_falling_edge(&mut self) -> Result<u32, Self::Error>
        requires
            old(self).can_capture_falling(),
    ;
}

/// A CAN (FD) bus interface.
pub trait CanBus {
    type Error;

    /// Transmits a frame with identifier `id` and payload `data`.
    fn send_frame(&mut self, id: u32, data: &[u8]) -> Result<(), Self::Error>;

    /// Receives the next frame into `buffer`.
    fn receive_frame(&mut self, buffer: &mut CanFrame) -> Result<(), Self::Error>;
}

} // verus!
