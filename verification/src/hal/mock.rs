//! Mock peripherals for host-side tests.

use crate::bounded::{
    can_payload_extend, can_payload_new, received_frames_count, received_frames_new,
    received_frames_pop_front, sent_frames_new, sent_frames_push_back, sent_frames_view,
};
use crate::hal::{CanBus, CanFrame, EngineTimer, HighResAdc, TriggerCapture};
use heapless::Deque;
use vstd::prelude::*;

verus! {

/// Errors of the mock peripherals.
#[derive(Debug, Clone, Copy, PartialEq, Eq, Structural)]
pub enum MockError {
    NotImplemented,
    InvalidChannel,
    BufferTooSmall,
}

/// Number of channels of the mock ADC.
pub const MOCK_ADC_CHANNELS: u8 = 16;

/// The reading the mock ADC gives for a channel.
pub open spec fn mock_reading(channel: int) -> u16 {
    (channel * 100) as u16
}

/// An ADC whose channel `c` always reads `100 * c`.
pub struct MockAdc;

impl HighResAdc for MockAdc {
    type Error = MockError;

    /// Readings `100 * c` must fit in 16 bits.
    open spec fn accepts_transfer(&self, len: nat) -> bool {
        len <= 656
    }

    /// Channels above 15 do not exist.
    fn read_channel(&mut self, channel: u8) -> (r: Result<u16, MockError>)
        ensures
            channel > 15 ==> r == Err::<u16, MockError>(MockError::InvalidChannel),
            channel <= 15 ==> r == Ok::<u16, MockError>(mock_reading(channel as int)),
    {
        if channel > 15 {
            return Err(MockError::InvalidChannel);
        }
        Ok(channel as u16 * 100)
    }

    /// Fills the buffer with the readings of channels 0, 1, 2, ...; an
    /// empty buffer is refused. Readings must fit in 16 bits.
    fn read_all_dma(&mut self, buffer: &mut [u16]) -> (r: Result<(), MockError>)
        ensures
            old(buffer)@.len() == 0 ==> r == Err::<(), MockError>(MockError::BufferTooSmall) && final(buffer)@ == old(buffer)@,
            old(buffer)@.len() > 0 ==> r is Ok && final(buffer)@ =~= Seq::new(old(buffer)@.len(), |i: int| mock_reading(i)),
    {
        if buffer.len() == 0 {
            return Err(MockError::BufferTooSmall);
        }
        let n = buffer.len();
        let mut i: usize = 0;
        while i < n
            invariant
                n == buffer@.len(),
                n <= 656,
                i <= n,
                forall|j: int| 0 <= j < i ==> buffer@[j] == mock_reading(j),
            decreases n - i,
        {
            buffer[i] = (i as u16) * 100;
            i = i + 1;
        }
        Ok(())
    }
}

/// Number of compare channels of the mock timer.
pub const MOCK_TIMER_CHANNELS: usize = 8;

/// A timer that records what it is configured with.
pub struct MockEngineTimer {
    pub frequency: u32,
    pub compare_values: [u32; 8],
    pub counter: u32,
    pub interrupt_enabled: bool,
}

impl Default for MockEngineTimer {
    fn default() -> (t: Self)
        ensures
            t.frequency == 0,
            forall|i: int| 0 <= i < 8 ==> t.compare_values[i] == 0,
            t.counter == 0,
            !t.interrupt_enabled,
    {
        MockEngineTimer { frequency: 0, compare_values: [0; 8], counter: 0, interrupt_enabled: false }
    }
}

impl EngineTimer for MockEngineTimer {
    type Error = MockError;

    /// Records the frequency.
    fn set_frequency(&mut self, freq_hz: u32) -> (r: Result<(), MockError>)
        ensures
            r is Ok,
            *final(self) == (MockEngineTimer { frequency: freq_hz, ..*old(self) }),
    {
        self.frequency = freq_hz;
        Ok(())
    }

    /// Records the compare value of one of the eight channels.
    fn set_compare(&mut self, channel: u8, ticks: u32) -> (r: Result<(), MockError>)
        ensures
            channel >= 8 ==> r == Err::<(), MockError>(MockError::InvalidChannel) && *final(self) == *old(self),
            channel < 8 ==> r is Ok && final(self).compare_values@ == old(self).compare_values@.update(channel as int, ticks)
                && final(self).frequency == old(self).frequency && final(self).counter == old(self).counter
                && final(self).interrupt_enabled == old(self).interrupt_enabled,
    {
        if (channel as usize) >= 8 {
            return Err(MockError::InvalidChannel);
        }
        self.compare_values[channel as usize] = ticks;
        Ok(())
    }

    /// The counter as last set.
    fn get_counter(&self) -> (c: u32)
        ensures
            c == self.counter,
    {
        self.counter
    }

    /// Records that the interrupt is enabled.
    fn enable_interrupt(&mut self) -> (r: Result<(), MockError>)
        ensures
            r is Ok,
            *final(self) == (MockEngineTimer { interrupt_enabled: true, ..*old(self) }),
    {
        self.interrupt_enabled = true;
        Ok(())
    }
}

/// A capture unit that advances by 100 ticks to each rising edge and by
/// 50 ticks to each falling edge.
pub struct MockTriggerCapture {
    pub captured_value: u32,
}

impl Default for MockTriggerCapture {
    fn default() -> (c: Self)
        ensures
            c.captured_value == 0,
    {
        MockTriggerCapture { captured_value: 0 }
    }
}

impl TriggerCapture for MockTriggerCapture {
    type Error = MockError;

    /// The advanced capture value must fit in 32 bits.
    open spec fn can_capture_rising(&self) -> bool {
        self.captured_value + 100 <= u32::MAX
    }

    /// The advanced capture value must fit in 32 bits.
    open spec fn can_capture_falling(&self) -> bool {
        self.captured_value + 50 <= u32::MAX
    }

    /// Advances the capture by 100 ticks and returns it.
    fn capture_rising_edge(&mut self) -> (r: Result<u32, MockError>)
        ensures
            final(self).captured_value == old(self).captured_value + 100,
            r == Ok::<u32, MockError>(final(self).captured_value),
    {
        self.captured_value = self.captured_value + 100;
        Ok(self.captured_value)
    }

    /// Advances the capture by 50 ticks and returns it.
    fn capture_falling_edge(&mut self) -> (r: Result<u32, MockError>)
        ensures
            final(self).captured_value == old(self).captured_value + 50,
            r == Ok::<u32, MockError>(final(self).captured_value),
    {
        self.captured_value = self.captured_value + 50;
        Ok(self.captured_value)
    }
}

/// A bus that records sent frames and hands out queued received frames;
/// each queue holds up to sixteen frames.
pub struct MockCanBus {
    pub sent_frames: Deque<(u32, heapless::Vec<u8, 8>), 16>,
    pub received_frames: Deque<CanFrame, 16>,
}

impl MockCanBus {
    /// The sent frames, oldest first, as identifier and payload.
    pub open spec fn sent(&self) -> Seq<(u32, Seq<u8>)> {
        sent_frames_view(self.sent_frames)
    }

    /// The number of frames waiting to be received.
    pub open spec fn waiting(&self) -> nat {
        received_frames_count(self.received_frames)
    }
}

impl Default for MockCanBus {
    fn default() -> (b: Self)
        ensures
            b.sent() =~= Seq::<(u32, Seq<u8>)>::empty(),
            b.waiting() == 0,
    {
        MockCanBus { sent_frames: sent_frames_new(), received_frames: received_frames_new() }
    }
}

impl CanBus for MockCanBus {
    type Error = MockError;

    /// Records the frame; payloads over eight bytes, and frames beyond the
    /// sixteenth, are refused with `BufferTooSmall`.
    fn send_frame(&mut self, id: u32, data: &[u8]) -> (r: Result<(), MockError>)
        ensures
            data@.len() <= 8 && old(self).sent().len() < 16 ==> r is Ok && final(self).sent() =~= old(self).sent().push((id, data@)),
            !(data@.len() <= 8 && old(self).sent().len() < 16) ==> r == Err::<(), MockError>(MockError::BufferTooSmall)
                && final(self).sent() == old(self).sent(),
            final(self).waiting() == old(self).waiting(),
    {
        let mut vec_data = can_payload_new();
        match can_payload_extend(&mut vec_data, data) {
            Ok(()) => {},
            Err(()) => {
                return Err(MockError::BufferTooSmall);
            },
        }
        match sent_frames_push_back(&mut self.sent_frames, id, vec_data) {
            Ok(()) => Ok(()),
            Err(()) => Err(MockError::BufferTooSmall),
        }
    }

    /// Takes the oldest waiting frame; with none waiting, fails with
    /// `NotImplemented`.
    fn receive_frame(&mut self, buffer: &mut CanFrame) -> (r: Result<(), MockError>)
        ensures
            old(self).waiting() > 0 ==> r is Ok && final(self).waiting() == old(self).waiting() - 1,
            old(self).waiting() == 0 ==> r == Err::<(), MockError>(MockError::NotImplemented) && final(self).waiting() == 0,
            final(self).sent() == old(self).sent(),
    {
        match received_frames_pop_front(&mut self.received_frames) {
            Some(frame) => {
                *buffer = frame;
                Ok(())
            },
            None => Err(MockError::NotImplemented),
        }
    }
}

} // verus!
