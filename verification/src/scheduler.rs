//! Crank-angle based scheduling of ignition and injection events.

use crate::bounded::{
    event_heap_items, event_heap_new, event_heap_peek, event_heap_pop, event_heap_push, is_least,
    key_le, EventKey,
};
use heapless::binary_heap::{BinaryHeap, Min};
use vstd::multiset::Multiset;
use vstd::prelude::*;

verus! {

/// The kind of actuator event.
#[derive(Debug, PartialEq, Eq, Structural, PartialOrd, Ord, Clone, Copy)]
pub enum EventType {
    Ignition,
    Injection,
}

/// An actuator event due at a crank angle.
#[derive(Debug, PartialEq, Eq, Structural, PartialOrd, Ord, Clone, Copy)]
pub struct ScheduledEvent {
    pub angle: u16,
    pub event_type: EventType,
    pub channel: u8,
    pub duration: u16,
}

/// The position of an event kind in the declaration order of `EventType`.
pub open spec fn type_code(t: EventType) -> u8 {
    match t {
        EventType::Ignition => 0,
        EventType::Injection => 1,
    }
}

/// The key by which events are ordered: their fields in declaration order.
pub open spec fn event_key(e: ScheduledEvent) -> EventKey {
    (e.angle, type_code(e.event_type), e.channel, e.duration)
}

/// The event a key stands for.
pub open spec fn key_event(k: EventKey) -> ScheduledEvent {
    ScheduledEvent {
        angle: k.0,
        event_type: if k.1 == 0 { EventType::Ignition } else { EventType::Injection },
        channel: k.2,
        duration: k.3,
    }
}

/// The key of a valid event kind code.
pub open spec fn valid_key(k: EventKey) -> bool {
    k.1 <= 1
}

/// The earliest of a set of pending events.
pub open spec fn earliest(m: Multiset<EventKey>) -> EventKey {
    choose|k: EventKey| is_least(k, m)
}

fn key_of(e: ScheduledEvent) -> (k: EventKey)
    ensures
        k == event_key(e),
{
    let code: u8 = match e.event_type {
        EventType::Ignition => 0,
        EventType::Injection => 1,
    };
    (e.angle, code, e.channel, e.duration)
}

fn event_of(k: EventKey) -> (e: ScheduledEvent)
    ensures
        e == key_event(k),
{
    ScheduledEvent {
        angle: k.0,
        event_type: if k.1 == 0 { EventType::Ignition } else { EventType::Injection },
        channel: k.2,
        duration: k.3,
    }
}

/// The least item of a multiset is unique.
pub proof fn lemma_least_unique(a: EventKey, b: EventKey, m: Multiset<EventKey>)
    requires
        is_least(a, m),
        is_least(b, m),
    ensures
        a == b,
{
    assert(m.count(b) > 0 && key_le(a, b));
    assert(m.count(a) > 0 && key_le(b, a));
}

/// A queue of pending events, released in crank-angle order.
pub struct AngularScheduler {
    queue: BinaryHeap<EventKey, Min, 64>,
}

impl AngularScheduler {
    /// The keys of the pending events.
    pub closed spec fn pending(&self) -> Multiset<EventKey> {
        event_heap_items(self.queue)
    }

    #[verifier::type_invariant]
    spec fn keys_valid(self) -> bool {
        forall|k: EventKey| event_heap_items(self.queue).count(k) > 0 ==> valid_key(k)
    }

    /// An empty scheduler.
    pub fn new() -> (s: Self)
        ensures
            s.pending() =~= Multiset::empty(),
    {
        AngularScheduler { queue: event_heap_new() }
    }

    /// Queues an event; fails, changing nothing, when 64 events are pending.
    pub fn schedule(&mut self, event: ScheduledEvent) -> (r: Result<(), ()>)
        ensures
            r is Ok <==> old(self).pending().len() < 64,
            r is Ok ==> final(self).pending() =~= old(self).pending().insert(event_key(event)),
            r is Err ==> final(self).pending() =~= old(self).pending(),
    {
        proof {
            use_type_invariant(&*self);
        }
        let k = key_of(event);
        let mut queue = event_heap_new();
        core::mem::swap(&mut queue, &mut self.queue);
        let pushed = event_heap_push(&mut queue, k);
        self.queue = queue;
        match pushed {
            Ok(()) => Ok(()),
            Err(_) => Err(()),
        }
    }

    /// Releases the earliest pending event if it is due at `current_angle`.
    pub fn pop_ready(&mut self, current_angle: u16) -> (r: Option<ScheduledEvent>)
        ensures
            old(self).pending().len() > 0 && earliest(old(self).pending()).0 <= current_angle ==> {
                &&& r == Some(key_event(earliest(old(self).pending())))
                &&& event_key(r->0) == earliest(old(self).pending())
                &&& final(self).pending() =~= old(self).pending().remove(earliest(old(self).pending()))
            },
            !(old(self).pending().len() > 0 && earliest(old(self).pending()).0 <= current_angle) ==> {
                &&& r is None
                &&& final(self).pending() =~= old(self).pending()
            },
    {
        proof {
            use_type_invariant(&*self);
        }
        if let Some(first) = event_heap_peek(&self.queue) {
            proof {
                lemma_least_unique(first, earliest(self.pending()), self.pending());
            }
            if first.0 <= current_angle {
                let mut queue = event_heap_new();
                core::mem::swap(&mut queue, &mut self.queue);
                let popped = event_heap_pop(&mut queue);
                self.queue = queue;
                let k = popped.unwrap();
                proof {
                    lemma_least_unique(k, first, old(self).pending());
                    assert(old(self).pending().count(k) > 0);
                    assert(valid_key(k));
                }
                return Some(event_of(k));
            }
        }
        None
    }
}

/// Events leave the scheduler in order: the event released after another
/// never orders before it.
pub proof fn lemma_release_order(m: Multiset<EventKey>, first: EventKey, second: EventKey)
    requires
        is_least(first, m),
        is_least(second, m.remove(first)),
    ensures
        key_le(first, second),
{
}

} // verus!
