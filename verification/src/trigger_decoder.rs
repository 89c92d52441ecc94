//! Crank trigger-wheel decoding: tooth intervals, missing-tooth
//! synchronisation and engine speed.

use crate::bounded::{
    tooth_deque_clear, tooth_deque_is_full, tooth_deque_items, tooth_deque_len, tooth_deque_new,
    tooth_deque_pop_front, tooth_deque_push_back, tooth_deque_to_vec,
};
use heapless::Deque;
use vstd::prelude::*;

verus! {

/// Synchronisation state of the decoder.
#[derive(Debug, PartialEq, Eq, Structural, Clone, Copy)]
pub enum SyncState {
    NoSignal,
    Searching,
    Synced,
}

/// Number of tooth intervals the decoder remembers.
pub const TOOTH_HISTORY: usize = 64;

/// Microseconds per minute, the numerator of the speed calculation.
pub const MICROS_PER_MINUTE: u32 = 60_000_000;

/// The sum of a sequence of intervals.
pub open spec fn seq_sum(s: Seq<u32>) -> int
    decreases s.len(),
{
    if s.len() == 0 {
        0
    } else {
        seq_sum(s.drop_last()) + s.last()
    }
}

/// The time since the previous edge on a free-running 32-bit timer.
pub open spec fn wrapped_delta(last: u32, timestamp: u32) -> u32 {
    if timestamp >= last {
        (timestamp - last) as u32
    } else {
        (timestamp - last + 0x1_0000_0000) as u32
    }
}

/// The intervals an edge is compared against: none when the decoder had
/// no signal before it.
pub open spec fn history(state: SyncState, teeth: Seq<u32>) -> Seq<u32> {
    if state == SyncState::NoSignal {
        Seq::empty()
    } else {
        teeth
    }
}

/// An interval longer than one and a half times the average of more than
/// two remembered intervals marks the missing-tooth gap.
pub open spec fn gap_detected(past: Seq<u32>, delta: u32) -> bool {
    past.len() > 2 && 2 * delta > 3 * (seq_sum(past) / past.len() as int)
}

/// The state after an edge with interval `delta`.
pub open spec fn state_after(state: SyncState, teeth: Seq<u32>, delta: u32) -> SyncState {
    if gap_detected(history(state, teeth), delta) {
        SyncState::Synced
    } else if state == SyncState::NoSignal {
        SyncState::Searching
    } else {
        state
    }
}

/// The remembered intervals after an edge: the history restarts at the gap,
/// the oldest interval is dropped when the history is full, and the new
/// interval is appended.
pub open spec fn teeth_after(state: SyncState, teeth: Seq<u32>, delta: u32) -> Seq<u32> {
    let past = history(state, teeth);
    let kept = if gap_detected(past, delta) { Seq::empty() } else { past };
    let room = if kept.len() == 64 { kept.drop_first() } else { kept };
    room.push(delta)
}

/// The duration of a revolution as seen at an edge: at the gap, the
/// intervals of the revolution that ends there; otherwise the remembered
/// intervals.
pub open spec fn revolution_time(state: SyncState, teeth: Seq<u32>, delta: u32) -> int {
    let past = history(state, teeth);
    if gap_detected(past, delta) {
        seq_sum(past) + delta
    } else {
        seq_sum(teeth_after(state, teeth, delta))
    }
}

/// The engine speed reported at an edge: zero until synchronised.
pub open spec fn rpm_after(state: SyncState, teeth: Seq<u32>, delta: u32) -> u16 {
    if state_after(state, teeth, delta) == SyncState::Synced {
        (MICROS_PER_MINUTE as int / revolution_time(state, teeth, delta)) as u16
    } else {
        0
    }
}

/// An edge the decoder can process: a synchronised revolution has a
/// non-zero duration, so that the speed can be computed from it.
pub open spec fn pulse_defined(state: SyncState, teeth: Seq<u32>, delta: u32) -> bool {
    state_after(state, teeth, delta) == SyncState::Synced ==> revolution_time(state, teeth, delta) > 0
}

proof fn lemma_sum_push(s: Seq<u32>, x: u32)
    ensures
        seq_sum(s.push(x)) == seq_sum(s) + x,
{
    assert(s.push(x).drop_last() =~= s);
}

proof fn lemma_sum_nonneg(s: Seq<u32>)
    ensures
        seq_sum(s) >= 0,
    decreases s.len(),
{
    if s.len() > 0 {
        lemma_sum_nonneg(s.drop_last());
    }
}

proof fn lemma_sum_drop_first(s: Seq<u32>)
    requires
        s.len() > 0,
    ensures
        seq_sum(s) == s[0] + seq_sum(s.drop_first()),
    decreases s.len(),
{
    if s.len() > 1 {
        lemma_sum_drop_first(s.drop_last());
        assert(s.drop_last().drop_first() =~= s.drop_first().drop_last());
        assert(s.drop_first().last() == s.last());
        assert(seq_sum(s.drop_first()) == seq_sum(s.drop_first().drop_last()) + s.drop_first().last());
    } else {
        assert(s.drop_first().len() == 0);
        assert(s.drop_last().len() == 0);
        assert(seq_sum(s.drop_last()) == 0);
        assert(seq_sum(s.drop_first()) == 0);
    }
}

proof fn lemma_sum_bound(s: Seq<u32>)
    ensures
        0 <= seq_sum(s) <= s.len() * 0xFFFF_FFFF,
    decreases s.len(),
{
    if s.len() > 0 {
        lemma_sum_bound(s.drop_last());
    }
}

/// Sums at most 65 intervals.
fn sum_intervals(v: &Vec<u32>) -> (total: u64)
    requires
        v@.len() <= 65,
    ensures
        total == seq_sum(v@),
{
    let mut total: u64 = 0;
    let mut i: usize = 0;
    while i < v.len()
        invariant
            i <= v@.len(),
            v@.len() <= 65,
            total == seq_sum(v@.take(i as int)),
        decreases v@.len() - i,
    {
        proof {
            assert(v@.take(i + 1).drop_last() =~= v@.take(i as int));
            lemma_sum_bound(v@.take(i as int));
        }
        total = total + v[i] as u64;
        i = i + 1;
    }
    proof {
        assert(v@.take(i as int) =~= v@);
    }
    total
}

/// Decodes edges of a missing-tooth crank wheel.
pub struct TriggerDecoder {
    state: SyncState,
    last_tooth_time: u32,
    tooth_times: Deque<u32, 64>,
    missing_tooth_detected: bool,
}

impl TriggerDecoder {
    /// The synchronisation state.
    pub closed spec fn state(&self) -> SyncState {
        self.state
    }

    /// The timestamp of the previous edge.
    pub closed spec fn last_tooth_time(&self) -> u32 {
        self.last_tooth_time
    }

    /// The remembered tooth intervals, oldest first.
    pub closed spec fn teeth(&self) -> Seq<u32> {
        tooth_deque_items(self.tooth_times)
    }

    /// Whether the missing-tooth gap has been seen.
    pub closed spec fn missing_tooth_detected(&self) -> bool {
        self.missing_tooth_detected
    }

    /// A decoder that has seen no signal.
    pub fn new() -> (d: Self)
        ensures
            d.state() == SyncState::NoSignal,
            d.last_tooth_time() == 0,
            d.teeth() =~= Seq::<u32>::empty(),
            !d.missing_tooth_detected(),
    {
        TriggerDecoder {
            state: SyncState::NoSignal,
            last_tooth_time: 0,
            tooth_times: tooth_deque_new(),
            missing_tooth_detected: false,
        }
    }

    /// Whether an edge at `timestamp` can be processed: a synchronised
    /// revolution has non-zero duration.
    pub fn pulse_is_defined(&self, timestamp: u32) -> (b: bool)
        ensures
            b == pulse_defined(self.state(), self.teeth(), wrapped_delta(self.last_tooth_time(), timestamp)),
    {
        let delta = timestamp.wrapping_sub(self.last_tooth_time);
        let no_signal = self.state == SyncState::NoSignal;
        let items = tooth_deque_to_vec(&self.tooth_times);
        let stored = tooth_deque_len(&self.tooth_times);
        let ghost past = history(self.state(), self.teeth());
        let len: usize = if no_signal { 0 } else { stored };
        let sum: u64 = if no_signal { 0 } else { sum_intervals(&items) };
        proof {
            lemma_sum_bound(past);
            if no_signal {
                assert(seq_sum(past) == 0);
            }
        }
        assert(past.len() == len && sum == seq_sum(past));
        let gap = len > 2 && 2 * (delta as u64) > 3 * (sum / (len as u64));
        if gap {
            return sum + (delta as u64) > 0;
        }
        if self.state != SyncState::Synced {
            return true;
        }
        // Neither restarted at a gap nor taken over from no signal: the
        // revolution is the remembered intervals after the edge.
        let first: u64 = if len == 64 { items[0] as u64 } else { 0 };
        proof {
            if len == 64 {
                assert(items@ == past);
                lemma_sum_drop_first(past);
                lemma_sum_nonneg(past.drop_first());
                lemma_sum_push(past.drop_first(), delta);
            } else {
                lemma_sum_push(past, delta);
            }
        }
        sum - first + (delta as u64) > 0
    }

    /// Processes an edge at `timestamp` and returns the engine speed in
    /// revolutions per minute (zero until synchronised), the crank angle
    /// (always zero: angle tracking is not implemented) and the state.
    pub fn handle_interrupt_pulse(&mut self, timestamp: u32) -> (r: (u16, u32, SyncState))
        requires
            pulse_defined(old(self).state(), old(self).teeth(), wrapped_delta(old(self).last_tooth_time(), timestamp)),
        ensures
            ({
                let delta = wrapped_delta(old(self).last_tooth_time(), timestamp);
                &&& final(self).last_tooth_time() == timestamp
                &&& final(self).state() == state_after(old(self).state(), old(self).teeth(), delta)
                &&& final(self).teeth() == teeth_after(old(self).state(), old(self).teeth(), delta)
                &&& final(self).missing_tooth_detected() == (old(self).missing_tooth_detected()
                    || gap_detected(history(old(self).state(), old(self).teeth()), delta))
                &&& r == (rpm_after(old(self).state(), old(self).teeth(), delta), 0u32, final(self).state())
            }),
    {
        let ghost old_teeth = self.teeth();
        let delta = timestamp.wrapping_sub(self.last_tooth_time);
        self.last_tooth_time = timestamp;

        if self.state == SyncState::NoSignal {
            self.state = SyncState::Searching;
            tooth_deque_clear(&mut self.tooth_times);
        }
        let ghost past = self.teeth();
        assert(past == history(old(self).state(), old_teeth));

        let mut gap_revolution: Option<u64> = None;
        let len = tooth_deque_len(&self.tooth_times);
        if len > 2 {
            let items = tooth_deque_to_vec(&self.tooth_times);
            let sum = sum_intervals(&items);
            proof {
                lemma_sum_bound(items@);
            }
            let avg_delta = sum / (len as u64);
            if 2 * (delta as u64) > 3 * avg_delta {
                self.missing_tooth_detected = true;
                self.state = SyncState::Synced;
                gap_revolution = Some(sum + delta as u64);
                tooth_deque_clear(&mut self.tooth_times);
            }
        }
        let ghost kept = self.teeth();

        if tooth_deque_is_full(&self.tooth_times) {
            tooth_deque_pop_front(&mut self.tooth_times);
        }
        let ghost room = self.teeth();
        let _ = tooth_deque_push_back(&mut self.tooth_times, delta);

        proof {
            lemma_sum_nonneg(past);
            if kept.len() == 64 {
                lemma_sum_drop_first(kept);
                lemma_sum_nonneg(kept.drop_first());
            }
            lemma_sum_push(room, delta);
        }

        let rpm: u16 = if self.state == SyncState::Synced {
            let revolution_time: u64 = match gap_revolution {
                Some(t) => t,
                None => {
                    let _ = tooth_deque_len(&self.tooth_times);
                    let items = tooth_deque_to_vec(&self.tooth_times);
                    sum_intervals(&items)
                },
            };
            (MICROS_PER_MINUTE as u64 / revolution_time) as u16
        } else {
            0
        };

        (rpm, 0, self.state)
    }
}

/// Once synchronised, the decoder stays synchronised.
pub proof fn lemma_sync_is_kept(teeth: Seq<u32>, delta: u32)
    ensures
        state_after(SyncState::Synced, teeth, delta) == SyncState::Synced,
{
}

/// Every edge brings the decoder out of the no-signal state.
pub proof fn lemma_edge_leaves_no_signal(state: SyncState, teeth: Seq<u32>, delta: u32)
    ensures
        state_after(state, teeth, delta) != SyncState::NoSignal,
{
}

/// The remembered history never exceeds its capacity and always ends with
/// the newest interval.
pub proof fn lemma_history_bounded(state: SyncState, teeth: Seq<u32>, delta: u32)
    requires
        teeth.len() <= 64,
    ensures
        teeth_after(state, teeth, delta).len() <= 64,
        teeth_after(state, teeth, delta).last() == delta,
{
}

/// An edge at any timestamp other than the previous edge's can always be
/// processed: the decoder then leaves the no-signal state, stays
/// synchronised once it is, and reports no speed until synchronised.
pub proof fn lemma_new_edge_is_defined(state: SyncState, teeth: Seq<u32>, delta: u32)
    requires
        delta > 0,
    ensures
        pulse_defined(state, teeth, delta),
        state_after(state, teeth, delta) != SyncState::NoSignal,
        state == SyncState::Synced ==> state_after(state, teeth, delta) == SyncState::Synced,
        state_after(state, teeth, delta) != SyncState::Synced ==> rpm_after(state, teeth, delta) == 0,
{
    let past = history(state, teeth);
    lemma_sum_nonneg(past);
    let kept = if gap_detected(past, delta) { Seq::<u32>::empty() } else { past };
    let room = if kept.len() == 64 { kept.drop_first() } else { kept };
    lemma_sum_nonneg(room);
    lemma_sum_push(room, delta);
}

/// With more than two remembered intervals, an interval longer than one and
/// a half times their average is the missing-tooth gap: the decoder is then
/// synchronised, restarts its history at that interval, and reports the
/// speed of the revolution the gap ends, 60,000,000 us over the remembered
/// intervals plus the gap. A shorter interval is not the gap: a decoder that
/// is still searching keeps searching and reports no speed.
pub proof fn lemma_gap_synchronises(state: SyncState, teeth: Seq<u32>, delta: u32)
    requires
        state != SyncState::NoSignal,
        teeth.len() > 2,
    ensures
        2 * delta > 3 * (seq_sum(teeth) / (teeth.len() as int)) ==> {
            &&& state_after(state, teeth, delta) == SyncState::Synced
            &&& teeth_after(state, teeth, delta) == seq![delta]
            &&& rpm_after(state, teeth, delta) == (60_000_000int / (seq_sum(teeth) + delta)) as u16
        },
        2 * delta <= 3 * (seq_sum(teeth) / (teeth.len() as int)) && state == SyncState::Searching ==> {
            &&& state_after(state, teeth, delta) == SyncState::Searching
            &&& rpm_after(state, teeth, delta) == 0
        },
{
    assert(Seq::<u32>::empty().push(delta) =~= seq![delta]);
}

} // verus!


