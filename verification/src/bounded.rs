//! The fixed-capacity containers of `heapless` that the firmware keeps its
//! queues in, with the contracts the rest of the library relies on.

use heapless::binary_heap::{BinaryHeap, Min};
use heapless::Deque;
use crate::hal::CanFrame;
use crate::mqtt::{retain_state, QoS2State};
use vstd::multiset::Multiset;
use vstd::prelude::*;

verus! {

#[verifier::external_type_specification]
#[verifier::external_body]
#[verifier::reject_recursive_types(T)]
#[verifier::reject_recursive_types(K)]
pub struct ExBinaryHeap<T, K, const N: usize>(BinaryHeap<T, K, N>);

#[verifier::external_type_specification]
#[verifier::external_body]
pub struct ExMin(Min);

#[verifier::external_type_specification]
#[verifier::external_body]
#[verifier::reject_recursive_types(T)]
pub struct ExDeque<T, const N: usize>(Deque<T, N>);

#[verifier::external_type_specification]
#[verifier::external_body]
#[verifier::reject_recursive_types(T)]
pub struct ExVec<T, const N: usize>(heapless::Vec<T, N>);

/// The ordering key of a scheduled event: angle, event kind, channel, duration.
pub type EventKey = (u16, u8, u8, u16);

/// Number of events the angular scheduler can hold.
pub const EVENT_QUEUE_CAPACITY: usize = 64;

/// The lexicographic order of `EventKey` tuples, as std orders tuples.
pub open spec fn key_le(a: EventKey, b: EventKey) -> bool {
    ||| a.0 < b.0
    ||| a.0 == b.0 && a.1 < b.1
    ||| a.0 == b.0 && a.1 == b.1 && a.2 < b.2
    ||| a.0 == b.0 && a.1 == b.1 && a.2 == b.2 && a.3 <= b.3
}

/// `k` is in `m` and no item of `m` orders before it.
pub open spec fn is_least(k: EventKey, m: Multiset<EventKey>) -> bool {
    &&& m.count(k) > 0
    &&& forall|j: EventKey| m.count(j) > 0 ==> key_le(k, j)
}

/// What a min-heap of event keys holds.
pub uninterp spec fn event_heap_items(h: BinaryHeap<EventKey, Min, 64>) -> Multiset<EventKey>;

/// `BinaryHeap::new`: the heap starts empty.
#[verifier::external_body]
pub(crate) fn event_heap_new() -> (h: BinaryHeap<EventKey, Min, 64>)
    ensures
        event_heap_items(h) =~= Multiset::empty(),
{
    BinaryHeap::new()
}

/// `BinaryHeap::push`: fails, leaving the heap as it was and handing the
/// item back, exactly when the heap already holds its capacity of items;
/// otherwise adds the item.
#[verifier::external_body]
pub(crate) fn event_heap_push(h: &mut BinaryHeap<EventKey, Min, 64>, item: EventKey) -> (r: Result<(), EventKey>)
    ensures
        event_heap_items(*old(h)).len() < 64 ==> r is Ok && event_heap_items(*final(h)) =~= event_heap_items(*old(h)).insert(item),
        event_heap_items(*old(h)).len() >= 64 ==> (r matches Err(back) && back == item) && event_heap_items(*final(h)) =~= event_heap_items(*old(h)),
{
    h.push(item)
}

/// `BinaryHeap::peek` on a min-heap: the least item, or `None` when empty.
#[verifier::external_body]
pub(crate) fn event_heap_peek(h: &BinaryHeap<EventKey, Min, 64>) -> (r: Option<EventKey>)
    ensures
        r is None <==> event_heap_items(*h).len() == 0,
        r matches Some(k) ==> is_least(k, event_heap_items(*h)),
{
    h.peek().copied()
}

/// `BinaryHeap::pop` on a min-heap: removes and returns the least item, or
/// returns `None` and leaves an empty heap as it was.
#[verifier::external_body]
pub(crate) fn event_heap_pop(h: &mut BinaryHeap<EventKey, Min, 64>) -> (r: Option<EventKey>)
    ensures
        r is None <==> event_heap_items(*old(h)).len() == 0,
        r is None ==> event_heap_items(*final(h)) =~= event_heap_items(*old(h)),
        r matches Some(k) ==> is_least(k, event_heap_items(*old(h)))
            && event_heap_items(*final(h)) =~= event_heap_items(*old(h)).remove(k),
{
    h.pop()
}

/// What the deque of tooth intervals holds, front first.
pub uninterp spec fn tooth_deque_items(d: Deque<u32, 64>) -> Seq<u32>;

/// `Deque::new`: the deque starts empty.
#[verifier::external_body]
pub(crate) fn tooth_deque_new() -> (d: Deque<u32, 64>)
    ensures
        tooth_deque_items(d) =~= Seq::<u32>::empty(),
{
    Deque::new()
}

/// `Deque::clear`: removes every item.
#[verifier::external_body]
pub(crate) fn tooth_deque_clear(d: &mut Deque<u32, 64>)
    ensures
        tooth_deque_items(*final(d)) =~= Seq::<u32>::empty(),
{
    d.clear()
}

/// `Deque::len`: the number of items, which never exceeds the capacity.
#[verifier::external_body]
pub(crate) fn tooth_deque_len(d: &Deque<u32, 64>) -> (r: usize)
    ensures
        r == tooth_deque_items(*d).len(),
        r <= 64,
{
    d.len()
}

/// `Deque::is_full`: whether the deque holds its capacity of items.
#[verifier::external_body]
pub(crate) fn tooth_deque_is_full(d: &Deque<u32, 64>) -> (r: bool)
    ensures
        r == (tooth_deque_items(*d).len() == 64),
{
    d.is_full()
}

/// `Deque::pop_front`: removes and returns the front item, if any.
#[verifier::external_body]
pub(crate) fn tooth_deque_pop_front(d: &mut Deque<u32, 64>) -> (r: Option<u32>)
    ensures
        tooth_deque_items(*old(d)).len() == 0 ==> r is None && tooth_deque_items(*final(d)) == tooth_deque_items(*old(d)),
        tooth_deque_items(*old(d)).len() > 0 ==> r == Some(tooth_deque_items(*old(d))[0])
            && tooth_deque_items(*final(d)) =~= tooth_deque_items(*old(d)).drop_first(),
{
    d.pop_front()
}

/// `Deque::push_back`: appends the item unless the deque is full, in which
/// case it is handed back and the deque is unchanged.
#[verifier::external_body]
pub(crate) fn tooth_deque_push_back(d: &mut Deque<u32, 64>, item: u32) -> (r: Result<(), u32>)
    ensures
        tooth_deque_items(*old(d)).len() < 64 ==> r is Ok && tooth_deque_items(*final(d)) =~= tooth_deque_items(*old(d)).push(item),
        tooth_deque_items(*old(d)).len() >= 64 ==> (r matches Err(back) && back == item) && tooth_deque_items(*final(d)) == tooth_deque_items(*old(d)),
{
    d.push_back(item)
}

/// The items of the deque, front first, copied out through `Deque::iter`.
#[verifier::external_body]
pub(crate) fn tooth_deque_to_vec(d: &Deque<u32, 64>) -> (v: Vec<u32>)
    ensures
        v@ == tooth_deque_items(*d),
{
    d.iter().copied().collect()
}

/// What the table of QoS 2 handshakes holds, in insertion order.
pub uninterp spec fn qos2_items(v: heapless::Vec<QoS2State, 16>) -> Seq<QoS2State>;

/// `Vec::new`: the table starts empty.
#[verifier::external_body]
pub(crate) fn qos2_new() -> (v: heapless::Vec<QoS2State, 16>)
    ensures
        qos2_items(v) =~= Seq::<QoS2State>::empty(),
{
    heapless::Vec::new()
}

/// `Vec::len`: the number of entries, which never exceeds the capacity.
#[verifier::external_body]
pub(crate) fn qos2_len(v: &heapless::Vec<QoS2State, 16>) -> (r: usize)
    ensures
        r == qos2_items(*v).len(),
        r <= 16,
{
    v.len()
}

/// Indexing: the entry at `i`.
#[verifier::external_body]
pub(crate) fn qos2_get(v: &heapless::Vec<QoS2State, 16>, i: usize) -> (r: QoS2State)
    requires
        i < qos2_items(*v).len(),
    ensures
        r == qos2_items(*v)[i as int],
{
    v[i]
}

/// Indexed assignment: replaces the entry at `i`.
#[verifier::external_body]
pub(crate) fn qos2_set(v: &mut heapless::Vec<QoS2State, 16>, i: usize, item: QoS2State)
    requires
        i < qos2_items(*old(v)).len(),
    ensures
        qos2_items(*final(v)) =~= qos2_items(*old(v)).update(i as int, item),
{
    v[i] = item;
}

/// `Vec::push`: appends the entry unless the table is full, in which case
/// it is handed back and the table is unchanged.
#[verifier::external_body]
pub(crate) fn qos2_push(v: &mut heapless::Vec<QoS2State, 16>, item: QoS2State) -> (r: Result<(), QoS2State>)
    ensures
        qos2_items(*old(v)).len() < 16 ==> r is Ok && qos2_items(*final(v)) =~= qos2_items(*old(v)).push(item),
        qos2_items(*old(v)).len() >= 16 ==> (r matches Err(back) && back == item) && qos2_items(*final(v)) == qos2_items(*old(v)),
{
    v.push(item)
}

/// `Vec::retain`: keeps, in order, the entries of other handshakes than
/// `packet_id`.
#[verifier::external_body]
pub(crate) fn qos2_retain_others(v: &mut heapless::Vec<QoS2State, 16>, packet_id: u16)
    ensures
        qos2_items(*final(v)) =~= qos2_items(*old(v)).filter(|s: QoS2State| s.packet_id != packet_id),
{
    v.retain(|s| retain_state(s, packet_id))
}

/// The bytes a CONNECT packet buffer holds.
pub uninterp spec fn connect_buf_bytes(v: heapless::Vec<u8, 256>) -> Seq<u8>;

/// `Vec::new`: an empty CONNECT packet buffer.
#[verifier::external_body]
pub(crate) fn connect_buf_new() -> (v: heapless::Vec<u8, 256>)
    ensures
        connect_buf_bytes(v) =~= Seq::<u8>::empty(),
{
    heapless::Vec::new()
}

/// `Vec::from_slice`: a CONNECT packet buffer holding `bytes`; fails when
/// they exceed its 256 bytes.
#[verifier::external_body]
pub(crate) fn connect_buf_from_slice(bytes: &[u8]) -> (r: Result<heapless::Vec<u8, 256>, ()>)
    ensures
        r is Ok <==> bytes@.len() <= 256,
        r matches Ok(v) ==> connect_buf_bytes(v) == bytes@,
{
    heapless::Vec::from_slice(bytes)
}

/// The bytes a PUBLISH packet buffer holds.
pub uninterp spec fn publish_buf_bytes(v: heapless::Vec<u8, 1024>) -> Seq<u8>;

/// `Vec::new`: an empty PUBLISH packet buffer.
#[verifier::external_body]
pub(crate) fn publish_buf_new() -> (v: heapless::Vec<u8, 1024>)
    ensures
        publish_buf_bytes(v) =~= Seq::<u8>::empty(),
{
    heapless::Vec::new()
}

/// `Vec::from_slice`: a PUBLISH packet buffer holding `bytes`; fails when
/// they exceed its 1024 bytes.
#[verifier::external_body]
pub(crate) fn publish_buf_from_slice(bytes: &[u8]) -> (r: Result<heapless::Vec<u8, 1024>, ()>)
    ensures
        r is Ok <==> bytes@.len() <= 1024,
        r matches Ok(v) ==> publish_buf_bytes(v) == bytes@,
{
    heapless::Vec::from_slice(bytes)
}

/// The bytes a CAN payload buffer holds.
pub uninterp spec fn can_payload_bytes(v: heapless::Vec<u8, 8>) -> Seq<u8>;

/// `Vec::new`: an empty payload buffer.
#[verifier::external_body]
pub(crate) fn can_payload_new() -> (v: heapless::Vec<u8, 8>)
    ensures
        can_payload_bytes(v) =~= Seq::<u8>::empty(),
{
    heapless::Vec::new()
}

/// `Vec::extend_from_slice`: appends `data` when the result fits the eight
/// bytes of the buffer; otherwise fails and changes nothing.
#[verifier::external_body]
pub(crate) fn can_payload_extend(v: &mut heapless::Vec<u8, 8>, data: &[u8]) -> (r: Result<(), ()>)
    ensures
        can_payload_bytes(*old(v)).len() + data@.len() <= 8 ==> r is Ok && can_payload_bytes(*final(v)) =~= can_payload_bytes(*old(v)) + data@,
        can_payload_bytes(*old(v)).len() + data@.len() > 8 ==> r is Err && can_payload_bytes(*final(v)) == can_payload_bytes(*old(v)),
{
    v.extend_from_slice(data)
}

/// The frames a mock bus has sent, oldest first, as identifier and payload.
pub uninterp spec fn sent_frames_view(d: Deque<(u32, heapless::Vec<u8, 8>), 16>) -> Seq<(u32, Seq<u8>)>;

/// `Deque::new`: no frame sent yet.
#[verifier::external_body]
pub(crate) fn sent_frames_new() -> (d: Deque<(u32, heapless::Vec<u8, 8>), 16>)
    ensures
        sent_frames_view(d) =~= Seq::<(u32, Seq<u8>)>::empty(),
{
    Deque::new()
}

/// `Deque::push_back`: records a frame unless sixteen are recorded, in
/// which case the record is unchanged.
#[verifier::external_body]
pub(crate) fn sent_frames_push_back(
    d: &mut Deque<(u32, heapless::Vec<u8, 8>), 16>,
    id: u32,
    payload: heapless::Vec<u8, 8>,
) -> (r: Result<(), ()>)
    ensures
        sent_frames_view(*old(d)).len() < 16 ==> r is Ok && sent_frames_view(*final(d)) =~= sent_frames_view(*old(d)).push((id, can_payload_bytes(payload))),
        sent_frames_view(*old(d)).len() >= 16 ==> r is Err && sent_frames_view(*final(d)) == sent_frames_view(*old(d)),
{
    d.push_back((id, payload)).map_err(|_| ())
}

/// The number of frames waiting to be received by a mock bus.
pub uninterp spec fn received_frames_count(d: Deque<CanFrame, 16>) -> nat;

/// `Deque::new`: no frame waiting.
#[verifier::external_body]
pub(crate) fn received_frames_new() -> (d: Deque<CanFrame, 16>)
    ensures
        received_frames_count(d) == 0,
{
    Deque::new()
}

/// `Deque::pop_front`: takes the oldest waiting frame, if any.
#[verifier::external_body]
pub(crate) fn received_frames_pop_front(d: &mut Deque<CanFrame, 16>) -> (r: Option<CanFrame>)
    ensures
        received_frames_count(*old(d)) == 0 ==> r is None && received_frames_count(*final(d)) == 0,
        received_frames_count(*old(d)) > 0 ==> r is Some && received_frames_count(*final(d)) == received_frames_count(*old(d)) - 1,
{
    d.pop_front()
}

} // verus!
