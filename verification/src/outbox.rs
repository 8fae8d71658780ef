//! The outbox: the in-memory holding area for enqueued-but-not-yet-shipped
//! events. Producers append; the flusher drains the whole contents in one
//! atomic swap that leaves an empty buffer behind.

use vstd::prelude::*;
use vstd::seq_lib::lemma_multiset_commutative;

use crate::event::TrackingEvent;

verus! {

/// An ordered buffer of pending events. The embedder serializes access
/// (one mutex around every call); each operation here is the sequential
/// effect of one critical section.
pub struct Outbox {
    events: Vec<TrackingEvent>,
}

impl View for Outbox {
    type V = Seq<TrackingEvent>;

    closed spec fn view(&self) -> Seq<TrackingEvent> {
        self.events@
    }
}

impl Outbox {
    /// A new, empty outbox.
    pub fn new() -> (r: Outbox)
        ensures
            r@ == Seq::<TrackingEvent>::empty(),
    {
        Outbox { events: Vec::new() }
    }

    /// Appends one event. Never fails, never rejects, no capacity bound.
    pub fn enqueue(&mut self, ev: TrackingEvent)
        ensures
            final(self)@ == old(self)@.push(ev),
    {
        self.events.push(ev);
    }

    /// Atomically takes the current contents, in enqueue order, and leaves
    /// the outbox empty. The buffer is swapped out, not copied, so the
    /// critical section around this call does O(1) work however full the
    /// outbox is.
    pub fn drain(&mut self) -> (r: Vec<TrackingEvent>)
        ensures
            r@ == old(self)@,
            final(self)@ == Seq::<TrackingEvent>::empty(),
    {
        let mut taken: Vec<TrackingEvent> = Vec::new();
        core::mem::swap(&mut self.events, &mut taken);
        taken
    }
}

/// The contents of an outbox that held `init` after a serialized run of
/// enqueues has appended the events `evs`, in the order the mutex admitted
/// them.
pub open spec fn after_enqueues(
    init: Seq<TrackingEvent>,
    evs: Seq<TrackingEvent>,
) -> Seq<TrackingEvent> {
    init + evs
}

/// Drain atomicity: for any serialized interleaving of enqueues (`evs`, in
/// admission order) against prior contents `init`, a drain returns exactly
/// `init + evs` and leaves the outbox empty. So the drained sequence
/// concatenated with the post-drain contents carries precisely the multiset
/// of all enqueued events — nothing is lost, nothing is duplicated — and each
/// enqueued event keeps its admission position, so events from one producer
/// appear in that producer's enqueue order.
pub proof fn lemma_drain_atomicity(init: Seq<TrackingEvent>, evs: Seq<TrackingEvent>)
    ensures
        after_enqueues(init, evs).to_multiset() == init.to_multiset().add(evs.to_multiset()),
        after_enqueues(init, evs).len() == init.len() + evs.len(),
        forall|i: int|
            0 <= i < evs.len() ==> after_enqueues(init, evs)[init.len() + i] == evs[i],
{
    lemma_multiset_commutative(init, evs);
}

} // verus!
