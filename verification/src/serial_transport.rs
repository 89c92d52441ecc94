//! The byte queues of the DMA-driven UART transport. Bytes to send go into
//! a single-producer queue that the transmit DMA drains; received bytes come
//! out of a single-consumer queue that the receive DMA fills. The DMA side
//! runs in interrupt context, so how full a queue is at any moment is not
//! known here.

use crate::hal::transport::Transport;
use heapless::spsc::{Consumer, Producer};
use vstd::prelude::*;

verus! {

#[verifier::external_type_specification]
#[verifier::external_body]
#[verifier::reject_recursive_types(T)]
pub struct ExProducer<'a, T, const N: usize>(Producer<'a, T, N>);

#[verifier::external_type_specification]
#[verifier::external_body]
#[verifier::reject_recursive_types(T)]
pub struct ExConsumer<'a, T, const N: usize>(Consumer<'a, T, N>);

/// The bytes that have been enqueued through a producer end, oldest first.
pub uninterp spec fn tx_taken(producer: Producer<'static, u8, 1024>) -> Seq<u8>;

/// `Producer::enqueue`: appends the byte to the queue unless it is full, in
/// which case the byte is handed back and nothing is enqueued. Whether the
/// queue is full depends on how far the other end has drained it, which is
/// not known here.
#[verifier::external_body]
fn tx_enqueue(producer: &mut Producer<'static, u8, 1024>, byte: u8) -> (r: Result<(), u8>)
    ensures
        r is Ok ==> tx_taken(*final(producer)) == tx_taken(*old(producer)).push(byte),
        r matches Err(back) ==> back == byte && tx_taken(*final(producer)) == tx_taken(*old(producer)),
{
    producer.enqueue(byte)
}

/// The bytes that have been dequeued through a consumer end, oldest first.
pub uninterp spec fn rx_given(consumer: Consumer<'static, u8, 1024>) -> Seq<u8>;

/// `Consumer::dequeue`: takes the oldest byte off the queue, or gives `None`
/// and takes nothing when it is empty. What the queue holds depends on the
/// other end and is not known here.
#[verifier::external_body]
fn rx_dequeue(consumer: &mut Consumer<'static, u8, 1024>) -> (r: Option<u8>)
    ensures
        r matches Some(b) ==> rx_given(*final(consumer)) == rx_given(*old(consumer)).push(b),
        r is None ==> rx_given(*final(consumer)) == rx_given(*old(consumer)),
{
    consumer.dequeue()
}

/// The record of a transfer that moved `bytes` and, if `stopped`, then met
/// a full (sending) or empty (receiving) queue: `Some(b)` per byte moved,
/// `None` for the offer or request that found no room or no byte.
pub open spec fn transfer_log(bytes: Seq<u8>, stopped: bool) -> Seq<Option<u8>> {
    bytes.map_values(|b: u8| Some(b)) + if stopped {
        seq![None::<u8>]
    } else {
        Seq::<Option<u8>>::empty()
    }
}

/// Errors of the serial transport.
#[derive(Debug, Clone, Copy, PartialEq, Eq, Structural)]
pub enum SerialError {
    BufferFull,
    BufferEmpty,
}

/// A UART transport whose transfers are done by DMA out of and into byte
/// queues.
pub struct DmaSerialTransport {
    tx_producer: Producer<'static, u8, 1024>,
    rx_consumer: Consumer<'static, u8, 1024>,
    sent: Ghost<Seq<Option<u8>>>,
    received: Ghost<Seq<Option<u8>>>,
}

impl DmaSerialTransport {
    /// The end of the transmit queue the transport sends into.
    pub closed spec fn tx_end(&self) -> Producer<'static, u8, 1024> {
        self.tx_producer
    }

    /// The end of the receive queue the transport reads from.
    pub closed spec fn rx_end(&self) -> Consumer<'static, u8, 1024> {
        self.rx_consumer
    }

    /// What the transport has offered to the transmit queue, oldest first:
    /// `Some(b)` for a byte `b` the queue took, `None` for an offer it
    /// refused because it was full.
    pub closed spec fn sent_log(&self) -> Seq<Option<u8>> {
        self.sent@
    }

    /// What the transport's requests to the receive queue gave, oldest
    /// first: `Some(b)` for a byte `b`, `None` for a request that found the
    /// queue empty.
    pub closed spec fn received_log(&self) -> Seq<Option<u8>> {
        self.received@
    }

    /// A transport sending through `tx_p` and receiving from `rx_c`, with
    /// nothing sent or received yet.
    pub fn new(tx_p: Producer<'static, u8, 1024>, rx_c: Consumer<'static, u8, 1024>) -> (t: Self)
        ensures
            t.tx_end() == tx_p,
            t.rx_end() == rx_c,
            t.sent_log() == Seq::<Option<u8>>::empty(),
            t.received_log() == Seq::<Option<u8>>::empty(),
    {
        DmaSerialTransport {
            tx_producer: tx_p,
            rx_consumer: rx_c,
            sent: Ghost(Seq::empty()),
            received: Ghost(Seq::empty()),
        }
    }

    /// Called when a transmit DMA transfer completes; the transfer engine
    /// is not implemented, so there is nothing to refill.
    pub fn handle_tx_dma_interrupt(&mut self)
        ensures
            *final(self) == *old(self),
    {
    }

    /// Called when a receive DMA transfer completes; the transfer engine is
    /// not implemented, so there is nothing to move.
    pub fn handle_rx_dma_interrupt(&mut self)
        ensures
            *final(self) == *old(self),
    {
    }
}

impl Transport for DmaSerialTransport {
    type Error = SerialError;

    /// Queues the bytes of `data` in order until the queue is full, and
    /// returns how many went in: all of them, or fewer when an offer was
    /// refused (no byte after a refused one is offered).
    fn send_non_blocking(&mut self, data: &[u8]) -> (r: Result<usize, SerialError>)
        ensures
            match r {
                Ok(n) => {
                    &&& n <= data@.len()
                    &&& tx_taken(final(self).tx_end()) == tx_taken(old(self).tx_end()) + data@.take(n as int)
                    &&& final(self).sent_log() == old(self).sent_log() + transfer_log(
                        data@.take(n as int),
                        n < data@.len(),
                    )
                },
                Err(_) => false,
            },
            final(self).rx_end() == old(self).rx_end(),
            final(self).received_log() == old(self).received_log(),
    {
        let ghost start = self.sent@;
        let ghost taken = tx_taken(self.tx_producer);
        let mut bytes_written: usize = 0;
        while bytes_written < data.len()
            invariant
                bytes_written <= data@.len(),
                self.sent@ == start + transfer_log(data@.take(bytes_written as int), false),
                self.rx_consumer == old(self).rx_consumer,
                self.received == old(self).received,
                start == old(self).sent@,
                taken == tx_taken(old(self).tx_producer),
                tx_taken(self.tx_producer) == taken + data@.take(bytes_written as int),
            decreases data@.len() - bytes_written,
        {
            let byte = data[bytes_written];
            let accepted = tx_enqueue(&mut self.tx_producer, byte).is_ok();
            if !accepted {
                self.sent = Ghost(self.sent@.push(None));
                assert(transfer_log(data@.take(bytes_written as int), false).push(None) =~= transfer_log(
                    data@.take(bytes_written as int),
                    true,
                ));
                assert(self.sent@ =~= start + transfer_log(data@.take(bytes_written as int), true));
                return Ok(bytes_written);
            }
            self.sent = Ghost(self.sent@.push(Some(byte)));
            assert(data@.take(bytes_written + 1) =~= data@.take(bytes_written as int).push(byte));
            assert(transfer_log(data@.take(bytes_written as int), false).push(Some(byte)) =~= transfer_log(
                data@.take(bytes_written + 1),
                false,
            ));
            bytes_written = bytes_written + 1;
        }
        Ok(bytes_written)
    }

    /// Moves received bytes into the front of `buf` until the queue runs
    /// empty or `buf` is full, and returns how many were moved; the rest of
    /// `buf` is untouched. The queue is not asked again once `buf` is full.
    fn receive_non_blocking(&mut self, buf: &mut [u8]) -> (r: Result<usize, SerialError>)
        ensures
            final(buf)@.len() == old(buf)@.len(),
            match r {
                Ok(n) => {
                    &&& n <= old(buf)@.len()
                    &&& final(buf)@.subrange(n as int, old(buf)@.len() as int) == old(buf)@.subrange(
                        n as int,
                        old(buf)@.len() as int,
                    )
                    &&& rx_given(final(self).rx_end()) == rx_given(old(self).rx_end()) + final(buf)@.take(n as int)
                    &&& final(self).received_log() == old(self).received_log() + transfer_log(
                        final(buf)@.take(n as int),
                        n < old(buf)@.len(),
                    )
                },
                Err(_) => false,
            },
            final(self).tx_end() == old(self).tx_end(),
            final(self).sent_log() == old(self).sent_log(),
    {
        let ghost start = self.received@;
        let ghost given = rx_given(self.rx_consumer);
        let mut bytes_read: usize = 0;
        while bytes_read < buf.len()
            invariant
                bytes_read <= buf@.len(),
                buf@.len() == old(buf)@.len(),
                forall|j: int| bytes_read <= j < buf@.len() ==> buf@[j] == old(buf)@[j],
                self.received@ == start + transfer_log(buf@.take(bytes_read as int), false),
                self.tx_producer == old(self).tx_producer,
                self.sent == old(self).sent,
                start == old(self).received@,
                given == rx_given(old(self).rx_consumer),
                rx_given(self.rx_consumer) == given + buf@.take(bytes_read as int),
            decreases buf@.len() - bytes_read,
        {
            let ghost before = buf@;
            match rx_dequeue(&mut self.rx_consumer) {
                Some(b) => {
                    self.received = Ghost(self.received@.push(Some(b)));
                    buf[bytes_read] = b;
                    assert(buf@.take(bytes_read as int) =~= before.take(bytes_read as int));
                    assert(buf@.take(bytes_read + 1) =~= buf@.take(bytes_read as int).push(b));
                    assert(transfer_log(before.take(bytes_read as int), false).push(Some(b)) =~= transfer_log(
                        buf@.take(bytes_read + 1),
                        false,
                    ));
                    bytes_read = bytes_read + 1;
                },
                None => {
                    self.received = Ghost(self.received@.push(None));
                    assert(transfer_log(buf@.take(bytes_read as int), false).push(None) =~= transfer_log(
                        buf@.take(bytes_read as int),
                        true,
                    ));
                    assert(self.received@ =~= start + transfer_log(buf@.take(bytes_read as int), true));
                    assert(buf@.subrange(bytes_read as int, buf@.len() as int) =~= old(buf)@.subrange(
                        bytes_read as int,
                        old(buf)@.len() as int,
                    ));
                    return Ok(bytes_read);
                },
            }
        }
        assert(buf@.subrange(bytes_read as int, buf@.len() as int) =~= old(buf)@.subrange(
            bytes_read as int,
            old(buf)@.len() as int,
        ));
        Ok(bytes_read)
    }

    /// Returns at once: the queued bytes are sent by the transmit DMA, which
    /// this transport does not wait for.
    fn flush(&mut self) -> (r: Result<(), SerialError>)
        ensures
            r is Ok,
            final(self).tx_end() == old(self).tx_end(),
            final(self).rx_end() == old(self).rx_end(),
            final(self).sent_log() == old(self).sent_log(),
            final(self).received_log() == old(self).received_log(),
    {
        Ok(())
    }
}

} // verus!
