//! MQTT client logic in the packet layout of MQTT 3.1.1: packet encoding,
//! the QoS 2 publish handshake and the keep-alive back-off. The network
//! reads and writes themselves are performed by the caller, which hands the
//! results to these functions.
//!
//! The CONNECT packet departs from the standard in one respect: the
//! remaining length it announces leaves out the two-byte length prefix of
//! the client identifier, so it is two less than the bytes that follow.

use crate::bounded::{
    connect_buf_bytes, connect_buf_from_slice, connect_buf_new, publish_buf_bytes, publish_buf_from_slice,
    publish_buf_new, qos2_get, qos2_items, qos2_len, qos2_new, qos2_push, qos2_retain_others, qos2_set};
use vstd::prelude::*;
use vstd::string::StringSliceAdditionalSpecFns;

verus! {

/// Errors of the MQTT client.
#[derive(Debug, PartialEq, Eq, Structural, Clone, Copy)]
pub enum MqttError {
    Network,
    Encode,
    Decode,
    BufferTooSmall,
    NotConnected,
}

/// MQTT quality-of-service levels.
#[derive(Debug, Clone, Copy, PartialEq, Eq, Structural)]
pub enum QoS {
    AtMostOnce,
    AtLeastOnce,
    ExactlyOnce,
}

/// The numeric level of a quality of service.
pub open spec fn qos_level(q: QoS) -> u8 {
    match q {
        QoS::AtMostOnce => 0,
        QoS::AtLeastOnce => 1,
        QoS::ExactlyOnce => 2,
    }
}

impl QoS {
    /// The numeric level (0, 1 or 2) carried in packet headers.
    pub fn level(self) -> (l: u8)
        ensures
            l == qos_level(self),
    {
        match self {
            QoS::AtMostOnce => 0,
            QoS::AtLeastOnce => 1,
            QoS::ExactlyOnce => 2,
        }
    }
}

/// The last-will message the broker publishes if the client disappears.
#[derive(Debug, Clone, Copy)]
pub struct Will<'a> {
    pub topic: &'a str,
    pub message: &'a [u8],
    pub qos: QoS,
    pub retain: bool,
}

/// Capacity of the CONNECT packet buffer.
pub const CONNECT_CAPACITY: usize = 256;

/// Capacity of the PUBLISH packet buffer.
pub const PUBLISH_CAPACITY: usize = 1024;

/// Keep-alive interval announced in CONNECT, in seconds.
pub const KEEP_ALIVE_SECS: u16 = 60;

/// The MQTT variable-length encoding of `x`: seven bits per byte, least
/// significant group first, the high bit set on every byte but the last.
pub open spec fn varint(x: nat) -> Seq<u8>
    decreases x,
{
    if x < 128 {
        seq![x as u8]
    } else {
        seq![(x % 128 + 128) as u8] + varint(x / 128)
    }
}

/// A 16-bit big-endian length or identifier.
pub open spec fn be16(n: nat) -> Seq<u8> {
    seq![(n / 256) as u8, (n % 256) as u8]
}

/// The CONNECT flags: clean session, plus the will flag, will QoS and will
/// retain bits when a will is set.
pub open spec fn connect_flags(will: Option<Will>) -> u8 {
    match will {
        None => 0x02,
        Some(w) => (0x02 + 0x04 + qos_level(w.qos) * 8 + if w.retain { 0x20int } else { 0 }) as u8,
    }
}

/// The will topic and message fields of CONNECT.
pub open spec fn will_fields(will: Option<Will>) -> Seq<u8> {
    match will {
        None => Seq::empty(),
        Some(w) => be16(w.topic.spec_bytes().len()) + w.topic.spec_bytes() + be16(w.message@.len()) + w.message@,
    }
}

/// The remaining length the client announces in CONNECT: ten header bytes,
/// the client identifier, and the will fields with their length prefixes.
/// (The identifier's own two-byte length prefix is not counted.)
pub open spec fn connect_remaining_length(client_id: Seq<u8>, will: Option<Will>) -> nat {
    10 + client_id.len() + match will {
        None => 0nat,
        Some(w) => 2 + w.topic.spec_bytes().len() + 2 + w.message@.len(),
    }
}

/// The CONNECT packet for `client_id` and `will`.
pub open spec fn connect_packet(client_id: Seq<u8>, will: Option<Will>) -> Seq<u8> {
    seq![0x10u8] + varint(connect_remaining_length(client_id, will)) + seq![
        0x00u8,
        0x04u8,
        0x4Du8,
        0x51u8,
        0x54u8,
        0x54u8,
        0x04u8,
    ] + seq![connect_flags(will)] + seq![0x00u8, 0x3Cu8] + be16(client_id.len()) + client_id + will_fields(will)
}

/// The remaining length of a PUBLISH packet.
pub open spec fn publish_remaining_length(topic: Seq<u8>, payload: Seq<u8>, qos: QoS) -> nat {
    2 + topic.len() + payload.len() + if qos_level(qos) > 0 { 2nat } else { 0 }
}

/// The PUBLISH packet: type and QoS, remaining length, topic, packet
/// identifier (for QoS above zero) and payload.
pub open spec fn publish_packet(topic: Seq<u8>, payload: Seq<u8>, qos: QoS, packet_id: u16) -> Seq<u8> {
    seq![(0x30 + qos_level(qos) * 2) as u8] + varint(publish_remaining_length(topic, payload, qos))
        + be16(topic.len()) + topic + (if qos_level(qos) > 0 { be16(packet_id as nat) } else { Seq::empty() })
        + payload
}

/// The PUBREL packet for `packet_id`.
pub open spec fn pubrel_packet(packet_id: u16) -> Seq<u8> {
    seq![0x62u8, 0x02u8] + be16(packet_id as nat)
}

proof fn lemma_varint_len(x: nat)
    ensures
        varint(x).len() >= 1,
        x >= 128 ==> varint(x).len() >= 2,
    decreases x,
{
    if x >= 128 {
        lemma_varint_len(x / 128);
    }
}

/// Decoding the variable-length encoding gives back the value.
pub open spec fn varint_value(bytes: Seq<u8>) -> nat
    decreases bytes.len(),
{
    if bytes.len() == 0 {
        0
    } else {
        (bytes[0] % 128) as nat + 128 * varint_value(bytes.drop_first())
    }
}

/// The remaining-length encoding can be decoded back to the length, and
/// only its last byte has the continuation bit clear.
pub proof fn lemma_varint_round_trip(x: nat)
    ensures
        varint_value(varint(x)) == x,
        forall|i: int| 0 <= i < varint(x).len() ==> (varint(x)[i] >= 128 <==> i < varint(x).len() - 1),
    decreases x,
{
    let v = varint(x);
    if x >= 128 {
        lemma_varint_round_trip(x / 128);
        assert(v.drop_first() =~= varint(x / 128));
        lemma_varint_len(x / 128);
        assert(v[0] == (x % 128 + 128) as u8);
        assert(((x % 128 + 128) as u8) % 128 == x % 128);
        assert(x == 128 * (x / 128) + x % 128);
    } else {
        assert(v.drop_first().len() == 0);
        assert(varint_value(v.drop_first()) == 0);
    }
}

/// Appends the variable-length encoding of `x`.
fn push_varint(packet: &mut Vec<u8>, x: u32)
    ensures
        final(packet)@ == old(packet)@ + varint(x as nat),
{
    let ghost start = packet@;
    let mut rest = x;
    loop
        invariant_except_break
            packet@ + varint(rest as nat) == start + varint(x as nat),
        ensures
            packet@ == start + varint(x as nat),
        decreases rest,
    {
        let ghost before = packet@;
        let low: u8 = (rest % 128) as u8;
        let next = rest / 128;
        let byte: u8 = if next > 0 { low + 128 } else { low };
        packet.push(byte);
        proof {
            if next > 0 {
                assert(varint(rest as nat) == seq![byte] + varint(next as nat));
                assert(before + varint(rest as nat) =~= packet@ + varint(next as nat));
            } else {
                assert(varint(rest as nat) == seq![byte]);
                assert(packet@ =~= before + varint(rest as nat));
            }
        }
        rest = next;
        if rest == 0 {
            break;
        }
    }
}

/// Appends `bytes`.
fn push_bytes(packet: &mut Vec<u8>, bytes: &[u8])
    ensures
        final(packet)@ == old(packet)@ + bytes@,
{
    let ghost start = packet@;
    let mut i: usize = 0;
    while i < bytes.len()
        invariant
            i <= bytes@.len(),
            packet@ == start + bytes@.take(i as int),
        decreases bytes@.len() - i,
    {
        packet.push(bytes[i]);
        proof {
            assert(bytes@.take(i + 1) =~= bytes@.take(i as int).push(bytes@[i as int]));
        }
        i = i + 1;
    }
    proof {
        assert(bytes@.take(i as int) =~= bytes@);
    }
}

/// Appends a 16-bit big-endian value.
fn push_be16(packet: &mut Vec<u8>, n: u16)
    ensures
        final(packet)@ == old(packet)@ + be16(n as nat),
{
    packet.push((n / 256) as u8);
    packet.push((n % 256) as u8);
    proof {
        assert(final(packet)@ =~= old(packet)@ + be16(n as nat));
    }
}

/// The number of bytes of the variable-length encoding of `x`.
fn varint_len(x: u32) -> (n: usize)
    ensures
        n == varint(x as nat).len(),
        n <= 5,
{
    proof {
        reveal_with_fuel(varint, 6);
    }
    if x < 128 {
        1
    } else if x < 16384 {
        assert(varint(x as nat) =~= seq![(x % 128 + 128) as u8] + varint((x / 128) as nat));
        2
    } else if x < 2097152 {
        assert(varint((x / 128) as nat).len() == 2);
        3
    } else if x < 268435456 {
        assert(varint((x / 16384) as nat).len() == 2);
        assert(varint((x / 128) as nat).len() == 3);
        4
    } else {
        assert(varint((x / 2097152) as nat).len() == 2);
        assert(varint((x / 16384) as nat).len() == 3);
        assert(varint((x / 128) as nat).len() == 4);
        5
    }
}

/// Whether the CONNECT packet for `client_id` and `will` fits the buffer it
/// is sent from.
pub fn connect_fits(client_id: &str, will: &Option<Will>) -> (fits: bool)
    ensures
        fits == (connect_packet(client_id.spec_bytes(), *will).len() <= CONNECT_CAPACITY),
{
    let id_len = client_id.as_bytes().len();
    let (topic_len, message_len): (usize, usize) = match will {
        Some(w) => (w.topic.as_bytes().len(), w.message.len()),
        None => (0, 0),
    };
    proof {
        lemma_varint_len(connect_remaining_length(client_id.spec_bytes(), *will));
    }
    if id_len > CONNECT_CAPACITY || topic_len > CONNECT_CAPACITY || message_len > CONNECT_CAPACITY {
        return false;
    }
    let extra: usize = match will {
        Some(_) => 4 + topic_len + message_len,
        None => 0,
    };
    let remaining_length: u32 = (10 + id_len + extra) as u32;
    let total = 1 + varint_len(remaining_length) + 12 + id_len + extra;
    total <= CONNECT_CAPACITY
}

/// Whether the PUBLISH packet fits the buffer it is sent from.
pub fn publish_fits(topic: &str, payload: &[u8], qos: QoS, packet_id: u16) -> (fits: bool)
    ensures
        fits == (publish_packet(topic.spec_bytes(), payload@, qos, packet_id).len() <= PUBLISH_CAPACITY),
{
    let topic_len = topic.as_bytes().len();
    let payload_len = payload.len();
    proof {
        lemma_varint_len(publish_remaining_length(topic.spec_bytes(), payload@, qos));
    }
    if topic_len > PUBLISH_CAPACITY || payload_len > PUBLISH_CAPACITY {
        return false;
    }
    let id_len: usize = if qos.level() > 0 {
        2
    } else {
        0
    };
    let remaining_length: u32 = (2 + topic_len + payload_len + id_len) as u32;
    let total = 1 + varint_len(remaining_length) + 2 + topic_len + id_len + payload_len;
    total <= PUBLISH_CAPACITY
}

fn assemble_connect(client_id: &str, will: &Option<Will>) -> (packet: Vec<u8>)
    requires
        connect_packet(client_id.spec_bytes(), *will).len() <= CONNECT_CAPACITY,
    ensures
        packet@ == connect_packet(client_id.spec_bytes(), *will),
{
    let ghost id = client_id.spec_bytes();
    let id_bytes = client_id.as_bytes();
    proof {
        lemma_varint_len(connect_remaining_length(id, *will));
    }
    let mut flags: u8 = 0x02;
    let mut remaining_length: u32 = 10 + id_bytes.len() as u32;
    match will {
        Some(w) => {
            let level = w.qos.level();
            flags = 0x02 + 0x04 + level * 8;
            if w.retain {
                flags = flags + 0x20;
            }
            remaining_length = remaining_length + 2 + w.topic.as_bytes().len() as u32 + 2
                + w.message.len() as u32;
        },
        None => {},
    }
    let mut packet: Vec<u8> = Vec::new();
    packet.push(0x10);
    push_varint(&mut packet, remaining_length);
    packet.push(0x00);
    packet.push(0x04);
    packet.push(0x4D);
    packet.push(0x51);
    packet.push(0x54);
    packet.push(0x54);
    packet.push(0x04);
    packet.push(flags);
    packet.push(0x00);
    packet.push(0x3C);
    push_be16(&mut packet, id_bytes.len() as u16);
    push_bytes(&mut packet, id_bytes);
    match will {
        Some(w) => {
            let topic = w.topic.as_bytes();
            push_be16(&mut packet, topic.len() as u16);
            push_bytes(&mut packet, topic);
            push_be16(&mut packet, w.message.len() as u16);
            push_bytes(&mut packet, w.message);
        },
        None => {},
    }
    proof {
        assert(packet@ =~= connect_packet(id, *will));
    }
    packet
}

fn assemble_publish(topic: &str, payload: &[u8], qos: QoS, packet_id: u16) -> (packet: Vec<u8>)
    requires
        publish_packet(topic.spec_bytes(), payload@, qos, packet_id).len() <= PUBLISH_CAPACITY,
    ensures
        packet@ == publish_packet(topic.spec_bytes(), payload@, qos, packet_id),
{
    let topic_bytes = topic.as_bytes();
    proof {
        lemma_varint_len(publish_remaining_length(topic_bytes@, payload@, qos));
    }
    let level = qos.level();
    let mut remaining_length: u32 = 2 + topic_bytes.len() as u32 + payload.len() as u32;
    if level > 0 {
        remaining_length = remaining_length + 2;
    }
    let mut packet: Vec<u8> = Vec::new();
    packet.push(0x30 + level * 2);
    push_varint(&mut packet, remaining_length);
    push_be16(&mut packet, topic_bytes.len() as u16);
    push_bytes(&mut packet, topic_bytes);
    if level > 0 {
        push_be16(&mut packet, packet_id);
    }
    push_bytes(&mut packet, payload);
    proof {
        assert(packet@ =~= publish_packet(topic.spec_bytes(), payload@, qos, packet_id));
    }
    packet
}

/// Encodes the CONNECT packet (clean session, 60 s keep-alive) for
/// `client_id` and the optional will into the client's 256-byte send
/// buffer, which the packet must fit.
pub fn encode_connect(client_id: &str, will: &Option<Will>) -> (packet: heapless::Vec<u8, 256>)
    requires
        connect_packet(client_id.spec_bytes(), *will).len() <= CONNECT_CAPACITY,
    ensures
        connect_buf_bytes(packet) == connect_packet(client_id.spec_bytes(), *will),
{
    let bytes = assemble_connect(client_id, will);
    match connect_buf_from_slice(bytes.as_slice()) {
        Ok(packet) => packet,
        Err(()) => {
            proof {
                assert(false);
            }
            connect_buf_new()
        },
    }
}

/// Encodes a PUBLISH packet into the client's 1024-byte send buffer, which
/// the packet must fit; the packet identifier is carried only for QoS above
/// zero.
pub fn encode_publish(topic: &str, payload: &[u8], qos: QoS, packet_id: u16) -> (packet: heapless::Vec<u8, 1024>)
    requires
        publish_packet(topic.spec_bytes(), payload@, qos, packet_id).len() <= PUBLISH_CAPACITY,
    ensures
        publish_buf_bytes(packet) == publish_packet(topic.spec_bytes(), payload@, qos, packet_id),
{
    let bytes = assemble_publish(topic, payload, qos, packet_id);
    match publish_buf_from_slice(bytes.as_slice()) {
        Ok(packet) => packet,
        Err(()) => {
            proof {
                assert(false);
            }
            publish_buf_new()
        },
    }
}

/// Encodes the PUBREL packet for `packet_id`.
pub fn encode_pubrel(packet_id: u16) -> (packet: [u8; 4])
    ensures
        packet@ == pubrel_packet(packet_id),
{
    let packet: [u8; 4] = [0x62, 0x02, (packet_id / 256) as u8, (packet_id % 256) as u8];
    proof {
        assert(packet@ =~= pubrel_packet(packet_id));
    }
    packet
}

/// The PINGREQ packet.
pub fn encode_pingreq() -> (packet: [u8; 2])
    ensures
        packet@ == seq![0xC0u8, 0x00u8],
{
    let packet: [u8; 2] = [0xC0, 0x00];
    proof {
        assert(packet@ =~= seq![0xC0u8, 0x00u8]);
    }
    packet
}

/// The longest wait between keep-alive retries, in seconds.
pub const MAX_BACKOFF_SECS: u64 = 60;

/// The back-off before the next keep-alive attempt: reset to one second
/// after a successful ping, doubled up to a minute after a failed one.
pub fn next_backoff(backoff: u64, ping_failed: bool) -> (next: u64)
    requires
        backoff <= u64::MAX / 2,
    ensures
        next == if ping_failed {
            if 2 * backoff < MAX_BACKOFF_SECS { 2 * backoff } else { MAX_BACKOFF_SECS as int }
        } else {
            1
        },
{
    if ping_failed {
        let doubled = backoff * 2;
        if doubled < MAX_BACKOFF_SECS {
            doubled
        } else {
            MAX_BACKOFF_SECS
        }
    } else {
        1
    }
}

/// Starting from one second, the back-off stays between one second and a
/// minute whatever the pings do.
pub proof fn lemma_backoff_bounded(backoff: u64, ping_failed: bool)
    requires
        1 <= backoff <= MAX_BACKOFF_SECS,
    ensures
        ({
            let next = if ping_failed {
                if 2 * backoff < MAX_BACKOFF_SECS { 2 * backoff } else { MAX_BACKOFF_SECS as int }
            } else {
                1
            };
            1 <= next <= MAX_BACKOFF_SECS
        }),
{
}

/// The stages of an outgoing QoS 2 publish.
#[derive(Debug, Clone, Copy, PartialEq, Eq, Structural)]
pub enum PacketState {
    Start,
    WaitPubrec,
    SendPubrel,
    WaitPubcomp,
    Complete,
}

/// The progress of one outgoing QoS 2 publish.
#[derive(Debug, Clone, Copy, PartialEq, Eq, Structural)]
pub struct QoS2State {
    pub packet_id: u16,
    pub state: PacketState,
    pub retries: u8,
}

/// Number of QoS 2 publishes that can be in flight.
pub const QOS2_CAPACITY: usize = 16;

/// Number of timeouts after which a handshake stops retrying.
pub const MAX_RETRIES: u8 = 3;

/// Whether an entry belongs to another handshake than `packet_id`.
pub fn retain_state(s: &QoS2State, packet_id: u16) -> (keep: bool)
    ensures
        keep == (s.packet_id != packet_id),
{
    s.packet_id != packet_id
}

/// What the client does next for a QoS 2 publish.
#[derive(Debug, Clone, Copy, PartialEq, Eq, Structural)]
pub enum Qos2Action {
    /// Read frames until the PUBREC arrives (see `Qos2Tracker::on_pubrec`).
    AwaitPubrec,
    /// Send PUBREL, report it with `Qos2Tracker::pubrel_sent`, then read
    /// frames until the PUBCOMP arrives (see `Qos2Tracker::on_pubcomp`).
    SendPubrel,
    /// Nothing to do in this stage; ask again.
    Spin,
    /// The handshake is complete and forgotten.
    Finished,
}

/// The result of one timed read of a four-byte acknowledgement.
#[derive(Debug, Clone, Copy)]
pub enum ReadOutcome {
    /// Four bytes were read.
    Frame([u8; 4]),
    /// The read failed or timed out.
    Failed,
}

/// What to do after a read while waiting for an acknowledgement.
#[derive(Debug, Clone, Copy, PartialEq, Eq, Structural)]
pub enum WaitOutcome {
    /// The frame was not the awaited acknowledgement; read again.
    KeepWaiting,
    /// The awaited acknowledgement arrived.
    Acknowledged,
    /// Send PUBREL again, then read again.
    ResendPubrel,
    /// Give up with this error.
    Failed(MqttError),
}

/// `i` is the first entry of `s` for `packet_id`.
pub open spec fn is_first(s: Seq<QoS2State>, packet_id: u16, i: int) -> bool {
    &&& 0 <= i < s.len()
    &&& s[i].packet_id == packet_id
    &&& forall|j: int| 0 <= j < i ==> s[j].packet_id != packet_id
}

/// Some entry of `s` belongs to `packet_id`.
pub open spec fn tracks(s: Seq<QoS2State>, packet_id: u16) -> bool {
    exists|i: int| 0 <= i < s.len() && s[i].packet_id == packet_id
}

/// The index of the first entry for `packet_id`.
pub open spec fn first_index(s: Seq<QoS2State>, packet_id: u16) -> int {
    choose|i: int| is_first(s, packet_id, i)
}

/// Whether a frame is the acknowledgement of type `kind` for `packet_id`.
pub open spec fn acknowledges(frame: [u8; 4], kind: u8, packet_id: u16) -> bool {
    frame[0] == kind && frame[2] as int * 256 + frame[3] as int == packet_id as int
}

/// `s` with the stage of the first handshake for `packet_id` set to `stage`.
pub open spec fn with_stage(s: Seq<QoS2State>, packet_id: u16, stage: PacketState) -> Seq<QoS2State> {
    let i = first_index(s, packet_id);
    s.update(i, QoS2State { state: stage, ..s[i] })
}

/// `s` with one more retry counted for the first handshake for `packet_id`,
/// unless it has made all its retries.
pub open spec fn with_retry(s: Seq<QoS2State>, packet_id: u16) -> Seq<QoS2State> {
    let i = first_index(s, packet_id);
    if s[i].retries < MAX_RETRIES {
        s.update(i, QoS2State { retries: (s[i].retries + 1) as u8, ..s[i] })
    } else {
        s
    }
}

/// No handshake has counted more than `MAX_RETRIES` retries.
pub open spec fn retries_bounded(s: Seq<QoS2State>) -> bool {
    forall|j: int| 0 <= j < s.len() ==> #[trigger] s[j].retries <= MAX_RETRIES
}

proof fn lemma_first_exists(s: Seq<QoS2State>, packet_id: u16, w: int)
    requires
        0 <= w < s.len(),
        s[w].packet_id == packet_id,
    ensures
        is_first(s, packet_id, first_index(s, packet_id)),
    decreases w,
{
    if exists|j: int| 0 <= j < w && s[j].packet_id == packet_id {
        let j = choose|j: int| 0 <= j < w && s[j].packet_id == packet_id;
        lemma_first_exists(s, packet_id, j);
    } else {
        assert(is_first(s, packet_id, w));
    }
}

proof fn lemma_first_unique(s: Seq<QoS2State>, packet_id: u16, i: int, k: int)
    requires
        is_first(s, packet_id, i),
        is_first(s, packet_id, k),
    ensures
        i == k,
{
}

/// The in-flight QoS 2 publishes of a client.
pub struct Qos2Tracker {
    states: heapless::Vec<QoS2State, 16>,
}

impl Qos2Tracker {
    /// The in-flight handshakes, oldest first.
    pub closed spec fn states(&self) -> Seq<QoS2State> {
        qos2_items(self.states)
    }

    /// No handshake in flight.
    pub fn new() -> (t: Self)
        ensures
            t.states() =~= Seq::<QoS2State>::empty(),
    {
        Qos2Tracker { states: qos2_new() }
    }

    /// The index of the first handshake for `packet_id`, if any.
    pub fn find(&self, packet_id: u16) -> (r: Option<usize>)
        ensures
            r matches Some(i) ==> is_first(self.states(), packet_id, i as int),
            r is None ==> !tracks(self.states(), packet_id),
    {
        let len = qos2_len(&self.states);
        let mut i: usize = 0;
        while i < len
            invariant
                i <= len,
                len == self.states().len(),
                forall|j: int| 0 <= j < i ==> self.states()[j].packet_id != packet_id,
            decreases len - i,
        {
            let s = qos2_get(&self.states, i);
            if s.packet_id == packet_id {
                return Some(i);
            }
            i = i + 1;
        }
        None
    }

    /// Registers a new QoS 2 publish in its first stage; fails with
    /// `BufferTooSmall`, changing nothing, when 16 are in flight.
    pub fn begin(&mut self, packet_id: u16) -> (r: Result<(), MqttError>)
        ensures
            old(self).states().len() < QOS2_CAPACITY ==> r is Ok && final(self).states() =~= old(self).states().push(
                QoS2State { packet_id, state: PacketState::Start, retries: 0 },
            ),
            old(self).states().len() >= QOS2_CAPACITY ==> r == Err::<(), MqttError>(MqttError::BufferTooSmall)
                && final(self).states() == old(self).states(),
    {
        let entry = QoS2State { packet_id, state: PacketState::Start, retries: 0 };
        match qos2_push(&mut self.states, entry) {
            Ok(()) => Ok(()),
            Err(_) => Err(MqttError::BufferTooSmall),
        }
    }

    fn locate(&self, packet_id: u16) -> (i: usize)
        requires
            tracks(self.states(), packet_id),
        ensures
            is_first(self.states(), packet_id, i as int),
            i as int == first_index(self.states(), packet_id),
    {
        let r = self.find(packet_id);
        match r {
            Some(i) => {
                proof {
                    lemma_first_unique(self.states(), packet_id, i as int, first_index(self.states(), packet_id));
                }
                i
            },
            None => {
                proof {
                    assert(false);
                }
                0
            },
        }
    }

    /// Advances the handshake for `packet_id` by one stage and says what to
    /// do: a new publish moves on to waiting for PUBREC; a received PUBREC
    /// calls for PUBREL; a completed handshake is forgotten.
    pub fn step(&mut self, packet_id: u16) -> (action: Qos2Action)
        requires
            tracks(old(self).states(), packet_id),
        ensures
            ({
                let s = old(self).states();
                let i = first_index(s, packet_id);
                match s[i].state {
                    PacketState::Start => action == Qos2Action::AwaitPubrec && final(self).states() == with_stage(s, packet_id, PacketState::WaitPubrec),
                    PacketState::SendPubrel => action == Qos2Action::SendPubrel && final(self).states() == s,
                    PacketState::Complete => action == Qos2Action::Finished && final(self).states() == s.filter(
                        |e: QoS2State| e.packet_id != packet_id,
                    ),
                    _ => action == Qos2Action::Spin && final(self).states() == s,
                }
            }),
    {
        let i = self.locate(packet_id);
        let entry = qos2_get(&self.states, i);
        match entry.state {
            PacketState::Start => {
                qos2_set(&mut self.states, i, QoS2State { state: PacketState::WaitPubrec, ..entry });
                Qos2Action::AwaitPubrec
            },
            PacketState::WaitPubrec => Qos2Action::Spin,
            PacketState::SendPubrel => Qos2Action::SendPubrel,
            PacketState::WaitPubcomp => Qos2Action::Spin,
            PacketState::Complete => {
                qos2_retain_others(&mut self.states, packet_id);
                Qos2Action::Finished
            },
        }
    }

    /// Records that PUBREL has been sent: the handshake waits for PUBCOMP.
    pub fn pubrel_sent(&mut self, packet_id: u16)
        requires
            tracks(old(self).states(), packet_id),
        ensures
            ({
                let s = old(self).states();
                let i = first_index(s, packet_id);
                final(self).states() == with_stage(s, packet_id, PacketState::WaitPubcomp)
            }),
    {
        let i = self.locate(packet_id);
        let entry = qos2_get(&self.states, i);
        qos2_set(&mut self.states, i, QoS2State { state: PacketState::WaitPubcomp, ..entry });
    }

    /// Handles a read while waiting for PUBREC: the matching PUBREC moves
    /// the handshake on to PUBREL; another frame is ignored; a failed read
    /// counts a retry (up to three) and fails with `Network`.
    pub fn on_pubrec(&mut self, packet_id: u16, read: ReadOutcome) -> (outcome: WaitOutcome)
        requires
            tracks(old(self).states(), packet_id),
        ensures
            ({
                let s = old(self).states();
                let i = first_index(s, packet_id);
                match read {
                    ReadOutcome::Frame(frame) => if acknowledges(frame, 0x50, packet_id) {
                        outcome == WaitOutcome::Acknowledged && final(self).states() == with_stage(s, packet_id, PacketState::SendPubrel)
                    } else {
                        outcome == WaitOutcome::KeepWaiting && final(self).states() == s
                    },
                    ReadOutcome::Failed => outcome == WaitOutcome::Failed(MqttError::Network) && final(self).states() == with_retry(s, packet_id),
                }
            }),
    {
        match read {
            ReadOutcome::Frame(frame) => {
                let id: u16 = (frame[2] as u16) * 256 + (frame[3] as u16);
                if frame[0] == 0x50 && id == packet_id {
                    let i = self.locate(packet_id);
                    let entry = qos2_get(&self.states, i);
                    qos2_set(&mut self.states, i, QoS2State { state: PacketState::SendPubrel, ..entry });
                    WaitOutcome::Acknowledged
                } else {
                    WaitOutcome::KeepWaiting
                }
            },
            ReadOutcome::Failed => {
                let i = self.locate(packet_id);
                let entry = qos2_get(&self.states, i);
                if entry.retries < MAX_RETRIES {
                    qos2_set(&mut self.states, i, QoS2State { retries: entry.retries + 1, ..entry });
                }
                WaitOutcome::Failed(MqttError::Network)
            },
        }
    }

    /// Handles a read while waiting for PUBCOMP: the matching PUBCOMP
    /// completes the handshake; another frame is ignored; a failed read
    /// calls for PUBREL again while fewer than three retries were made and
    /// fails with `Network` after that.
    pub fn on_pubcomp(&mut self, packet_id: u16, read: ReadOutcome) -> (outcome: WaitOutcome)
        requires
            tracks(old(self).states(), packet_id),
        ensures
            ({
                let s = old(self).states();
                let i = first_index(s, packet_id);
                match read {
                    ReadOutcome::Frame(frame) => if acknowledges(frame, 0x70, packet_id) {
                        outcome == WaitOutcome::Acknowledged && final(self).states() == with_stage(s, packet_id, PacketState::Complete)
                    } else {
                        outcome == WaitOutcome::KeepWaiting && final(self).states() == s
                    },
                    ReadOutcome::Failed => if s[i].retries < MAX_RETRIES {
                        outcome == WaitOutcome::ResendPubrel && final(self).states() == with_retry(s, packet_id)
                    } else {
                        outcome == WaitOutcome::Failed(MqttError::Network) && final(self).states() == s
                    },
                }
            }),
    {
        match read {
            ReadOutcome::Frame(frame) => {
                let id: u16 = (frame[2] as u16) * 256 + (frame[3] as u16);
                if frame[0] == 0x70 && id == packet_id {
                    let i = self.locate(packet_id);
                    let entry = qos2_get(&self.states, i);
                    qos2_set(&mut self.states, i, QoS2State { state: PacketState::Complete, ..entry });
                    WaitOutcome::Acknowledged
                } else {
                    WaitOutcome::KeepWaiting
                }
            },
            ReadOutcome::Failed => {
                let i = self.locate(packet_id);
                let entry = qos2_get(&self.states, i);
                if entry.retries < MAX_RETRIES {
                    qos2_set(&mut self.states, i, QoS2State { retries: entry.retries + 1, ..entry });
                    WaitOutcome::ResendPubrel
                } else {
                    WaitOutcome::Failed(MqttError::Network)
                }
            },
        }
    }
}

proof fn lemma_stage_of_new_entry(s: Seq<QoS2State>, e: QoS2State, stage: PacketState)
    requires
        !tracks(s, e.packet_id),
    ensures
        first_index(s.push(e), e.packet_id) == s.len(),
        with_stage(s.push(e), e.packet_id, stage) =~= s.push(QoS2State { state: stage, ..e }),
{
    let t = s.push(e);
    assert forall|j: int| 0 <= j < s.len() implies t[j].packet_id != e.packet_id by {
        if t[j].packet_id == e.packet_id {
            assert(s[j].packet_id == e.packet_id);
        }
    }
    assert(is_first(t, e.packet_id, s.len() as int));
    lemma_first_unique(t, e.packet_id, s.len() as int, first_index(t, e.packet_id));
}

proof fn lemma_filter_keeps_others(s: Seq<QoS2State>, packet_id: u16)
    requires
        !tracks(s, packet_id),
    ensures
        s.filter(|e: QoS2State| e.packet_id != packet_id) =~= s,
    decreases s.len(),
{
    reveal(Seq::filter);
    if s.len() > 0 {
        let rest = s.drop_last();
        assert(!tracks(rest, packet_id)) by {
            if tracks(rest, packet_id) {
                let j = choose|j: int| 0 <= j < rest.len() && rest[j].packet_id == packet_id;
                assert(s[j].packet_id == packet_id);
            }
        }
        lemma_filter_keeps_others(rest, packet_id);
        assert(s[s.len() - 1].packet_id != packet_id);
        assert(rest.push(s.last()) =~= s);
    }
}

/// A handshake that runs its course leaves the tracker as it was: `begin`
/// appends it; `step` sees it new and awaits PUBREC; the PUBREC calls for
/// PUBREL; `step` sees PUBREL due; `pubrel_sent` awaits PUBCOMP; the PUBCOMP
/// completes it; and `step` sees it complete and forgets it.
pub proof fn lemma_complete_handshake_is_forgotten(s: Seq<QoS2State>, packet_id: u16)
    requires
        !tracks(s, packet_id),
    ensures
        ({
            let started = s.push(QoS2State { packet_id, state: PacketState::Start, retries: 0 });
            let awaiting = with_stage(started, packet_id, PacketState::WaitPubrec);
            let received = with_stage(awaiting, packet_id, PacketState::SendPubrel);
            let released = with_stage(received, packet_id, PacketState::WaitPubcomp);
            let completed = with_stage(released, packet_id, PacketState::Complete);
            &&& started[first_index(started, packet_id)].state == PacketState::Start
            &&& received[first_index(received, packet_id)].state == PacketState::SendPubrel
            &&& completed[first_index(completed, packet_id)].state == PacketState::Complete
            &&& completed.filter(|e: QoS2State| e.packet_id != packet_id) == s
        }),
{
    let e = QoS2State { packet_id, state: PacketState::Start, retries: 0 };
    lemma_stage_of_new_entry(s, e, PacketState::WaitPubrec);
    let e1 = QoS2State { state: PacketState::WaitPubrec, ..e };
    lemma_stage_of_new_entry(s, e1, PacketState::SendPubrel);
    let e2 = QoS2State { state: PacketState::SendPubrel, ..e };
    lemma_stage_of_new_entry(s, e2, PacketState::WaitPubcomp);
    let e3 = QoS2State { state: PacketState::WaitPubcomp, ..e };
    lemma_stage_of_new_entry(s, e3, PacketState::Complete);
    let e4 = QoS2State { state: PacketState::Complete, ..e };
    lemma_stage_of_new_entry(s, e4, PacketState::Complete);
    s.lemma_filter_push(e4, |x: QoS2State| x.packet_id != packet_id);
    lemma_filter_keeps_others(s, packet_id);
}

/// Every change the tracker makes keeps each handshake's retry count at
/// most `MAX_RETRIES`: registering a handshake, moving one to another
/// stage, counting a retry, and forgetting a completed one.
pub proof fn lemma_retries_stay_bounded(s: Seq<QoS2State>, packet_id: u16, stage: PacketState)
    requires
        retries_bounded(s),
    ensures
        retries_bounded(s.push(QoS2State { packet_id, state: PacketState::Start, retries: 0 })),
        tracks(s, packet_id) ==> retries_bounded(with_stage(s, packet_id, stage)),
        tracks(s, packet_id) ==> retries_bounded(with_retry(s, packet_id)),
        retries_bounded(s.filter(|e: QoS2State| e.packet_id != packet_id)),
{
    let t = s.push(QoS2State { packet_id, state: PacketState::Start, retries: 0 });
    assert forall|j: int| 0 <= j < t.len() implies #[trigger] t[j].retries <= MAX_RETRIES by {
        if j < s.len() {
            assert(t[j] == s[j]);
        }
    }
    if tracks(s, packet_id) {
        let w = choose|w: int| 0 <= w < s.len() && s[w].packet_id == packet_id;
        lemma_first_exists(s, packet_id, w);
    }
    let f = s.filter(|e: QoS2State| e.packet_id != packet_id);
    assert forall|j: int| 0 <= j < f.len() implies #[trigger] f[j].retries <= MAX_RETRIES by {
        assert(f.contains(f[j]));
        s.lemma_filter_contains_rev(|e: QoS2State| e.packet_id != packet_id, f[j]);
    }
}

/// A PUBREC or PUBCOMP acknowledges a packet exactly when its first byte is
/// the packet type and its last two bytes are the packet identifier, high
/// byte first; so the acknowledgement of any identifier, 256 and above
/// included, is the frame `[kind, 0x02, id / 256, id % 256]`.
pub proof fn lemma_acknowledgement_frame(frame: [u8; 4], kind: u8, packet_id: u16)
    ensures
        acknowledges(frame, kind, packet_id) <==> (frame[0] == kind && frame[2] == packet_id / 256 && frame[3]
            == packet_id % 256),
        acknowledges([kind, 0x02u8, (packet_id / 256) as u8, (packet_id % 256) as u8], kind, packet_id),
{
    let ack = [kind, 0x02u8, (packet_id / 256) as u8, (packet_id % 256) as u8];
    assert(ack[0] == kind && ack[2] == (packet_id / 256) as u8 && ack[3] == (packet_id % 256) as u8);
}

} // verus!



