//! Bounded FIFO coordination for finished transcript delivery. The queue owns only hand-off
//! order: the active worker owns the current item, and a queued item is released to it only
//! when the current one finishes. Callers that share a queue between threads wrap it in a lock.
use vstd::prelude::*;
use std::collections::VecDeque;
use crate::dictation_context::DictationContext;

verus! {

/// How many deliveries (the active one included) may be outstanding by default.
pub const DEFAULT_DELIVERY_CAPACITY: usize = 8;

/// One finished transcript and the dictation intent it must be delivered under.
pub struct TranscriptDelivery {
    pub text: String,
    pub context: DictationContext,
}

/// What happened to an item handed to [`DeliveryQueue::enqueue`].
#[derive(Debug, PartialEq, Eq)]
pub enum EnqueueResult<T> {
    /// No worker was active, so the caller must start delivery of this item.
    Start(T),
    /// A worker is active and will take this item in FIFO order.
    Queued,
    /// The bounded queue is full. The item is returned instead of dropped.
    Full(T),
}

/// A bounded FIFO of pending deliveries plus the flag for the active one.
pub struct DeliveryQueue<T> {
    capacity: usize,
    pending: VecDeque<T>,
    in_flight: bool,
}

impl<T> DeliveryQueue<T> {
    /// The capacity, the waiting items in order, and whether a delivery is active.
    pub closed spec fn capacity_spec(self) -> nat {
        self.capacity as nat
    }

    pub closed spec fn pending_spec(self) -> Seq<T> {
        self.pending@
    }

    pub closed spec fn in_flight_spec(self) -> bool {
        self.in_flight
    }

    /// Deliveries outstanding: the waiting ones plus the active one.
    pub open spec fn outstanding(self) -> int {
        self.pending_spec().len() + if self.in_flight_spec() { 1int } else { 0int }
    }

    /// The invariant as callers see it.
    pub open spec fn well_formed(self) -> bool {
        &&& self.capacity_spec() >= 1
        &&& self.pending_spec().len() > 0 ==> self.in_flight_spec()
        &&& self.outstanding() <= self.capacity_spec()
    }

    /// An idle queue holding at most `capacity` deliveries (at least one).
    pub fn with_capacity(capacity: usize) -> (q: Self)
        ensures
            q.capacity_spec() == if capacity >= 1 { capacity as nat } else { 1 },
            q.pending_spec() == Seq::<T>::empty(),
            !q.in_flight_spec(),
            q.well_formed(),
    {
        let capacity = if capacity >= 1 { capacity } else { 1 };
        DeliveryQueue { capacity, pending: VecDeque::new(), in_flight: false }
    }

    /// Offers an item. It starts a delivery when none is active, waits behind the active one
    /// when there is room, and comes back as `Full` otherwise.
    pub fn enqueue(&mut self, item: T) -> (r: EnqueueResult<T>)
        requires
            old(self).well_formed(),
        ensures
            final(self).capacity_spec() == old(self).capacity_spec(),
            final(self).well_formed(),
            old(self).outstanding() >= old(self).capacity_spec() ==> r == EnqueueResult::Full(item)
                && final(self).pending_spec() == old(self).pending_spec()
                && final(self).in_flight_spec() == old(self).in_flight_spec(),
            old(self).outstanding() < old(self).capacity_spec() && old(self).in_flight_spec() ==> r
                == EnqueueResult::<T>::Queued && final(self).pending_spec() == old(self).pending_spec().push(item)
                && final(self).in_flight_spec(),
            old(self).outstanding() < old(self).capacity_spec() && !old(self).in_flight_spec() ==> r
                == EnqueueResult::Start(item) && final(self).pending_spec() == old(self).pending_spec()
                && final(self).in_flight_spec(),
    {
        let count = self.pending.len() + if self.in_flight { 1 } else { 0 };
        if count >= self.capacity {
            return EnqueueResult::Full(item);
        }
        if self.in_flight {
            self.pending.push_back(item);
            EnqueueResult::Queued
        } else {
            self.in_flight = true;
            EnqueueResult::Start(item)
        }
    }

    /// Finishes the active item and hands the worker the next waiting one; `None` releases the
    /// worker, so a later enqueue starts a new one.
    pub fn finish_and_take_next(&mut self) -> (r: Option<T>)
        requires
            old(self).well_formed(),
        ensures
            final(self).capacity_spec() == old(self).capacity_spec(),
            final(self).well_formed(),
            old(self).pending_spec().len() > 0 ==> r == Some(old(self).pending_spec()[0])
                && final(self).pending_spec() == old(self).pending_spec().drop_first()
                && final(self).in_flight_spec() == old(self).in_flight_spec(),
            old(self).pending_spec().len() == 0 ==> r is None && final(self).pending_spec()
                == old(self).pending_spec() && !final(self).in_flight_spec(),
    {
        match self.pending.pop_front() {
            Some(next) => {
                        Some(next)
            },
            None => {
                self.in_flight = false;
                        None
            },
        }
    }

    /// No delivery is active and none is waiting.
    pub fn is_idle(&self) -> (r: bool)
        ensures
            r == (!self.in_flight_spec() && self.pending_spec().len() == 0),
    {
        !self.in_flight && self.pending.len() == 0
    }
}

impl<T> Default for DeliveryQueue<T> {
    fn default() -> (q: Self)
        ensures
            q.capacity_spec() == DEFAULT_DELIVERY_CAPACITY as nat,
            q.pending_spec() == Seq::<T>::empty(),
            !q.in_flight_spec(),
            q.well_formed(),
    {
        Self::with_capacity(DEFAULT_DELIVERY_CAPACITY)
    }
}

/// Items leave the queue in the order they were queued: after `b` is queued behind `a`, the
/// next finish hands out `a`.
pub proof fn law_fifo<T>(q: DeliveryQueue<T>, a: T, b: T)
    requires
        q.in_flight_spec(),
        q.pending_spec() == seq![a],
    ensures
        q.pending_spec().push(b)[0] == a,
        q.pending_spec().push(b).drop_first() == seq![b],
{
    assert(seq![a].push(b).drop_first() =~= seq![b]);
}

} // verus!
