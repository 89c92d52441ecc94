//! Non-blocking byte transports (UART, USB CDC).

use vstd::prelude::*;

verus! {

/// A non-blocking communication channel, usable from interrupt context.
pub trait Transport {
    type Error;

    /// Queues `data` for sending; returns how many bytes were accepted,
    /// which may be fewer than `data.len()` when the buffer is full.
    fn send_non_blocking(&mut self, data: &[u8]) -> Result<usize, Self::Error>;

    /// Moves received bytes into `buf`; returns how many were moved.
    fn receive_non_blocking(&mut self, buf: &mut [u8]) -> Result<usize, Self::Error>;

    /// Ensures everything queued has been sent.
    fn flush(&mut self) -> Result<(), Self::Error>;
}

} // verus!
