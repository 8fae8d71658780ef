//! The flusher state machine: the retry discipline for one drained snapshot.
//!
//! A snapshot is chunked once; the cursor walks the chunks in order. Each
//! send outcome moves the machine: success advances the cursor past the
//! current chunk, failure leaves the machine exactly where it was and
//! prescribes the retry delay. The embedder performs the prescribed action
//! (send, or sleep then send, or sleep then drain anew) and reports the
//! outcome back; every decision is taken here.

use vstd::prelude::*;

use crate::chunking::{chunk_views, into_chunks, lemma_chunking, spec_chunks};
use crate::error::Error;
use crate::event::TrackingEvent;

verus! {

/// Milliseconds between two drains once a snapshot is fully delivered.
pub const TICK_DELAY_MS: u64 = 1000;

/// Milliseconds between two attempts for the same chunk after a failure.
pub const RETRY_DELAY_MS: u64 = 500;

/// What the embedder must do next.
pub enum FlushAction {
    /// Send the current chunk now.
    SendNow,
    /// Wait `RETRY_DELAY_MS`, then send the current chunk again.
    WaitRetry,
    /// The snapshot is fully delivered: wait `TICK_DELAY_MS`, then drain
    /// the outbox for the next snapshot.
    WaitTick,
}

impl FlushAction {
    /// The wait this action prescribes before the next send or drain.
    pub open spec fn spec_delay_ms(&self) -> u64 {
        match self {
            FlushAction::SendNow => 0,
            FlushAction::WaitRetry => RETRY_DELAY_MS,
            FlushAction::WaitTick => TICK_DELAY_MS,
        }
    }

    /// The wait this action prescribes, in milliseconds.
    pub fn delay_ms(&self) -> (r: u64)
        ensures
            r == self.spec_delay_ms(),
    {
        match self {
            FlushAction::SendNow => 0,
            FlushAction::WaitRetry => RETRY_DELAY_MS,
            FlushAction::WaitTick => TICK_DELAY_MS,
        }
    }
}

/// The delivery state of one drained snapshot: its chunks, and a cursor over
/// them. Chunks before the cursor are delivered; the chunk at the cursor is
/// in flight; chunks after it wait their turn.
pub struct Flusher {
    chunks: Vec<Vec<TrackingEvent>>,
    next: usize,
}

impl Flusher {
    /// The chunks of the snapshot, as sequences.
    pub closed spec fn chunks_model(&self) -> Seq<Seq<TrackingEvent>> {
        chunk_views(self.chunks@)
    }

    /// How many chunks have been delivered.
    pub closed spec fn cursor(&self) -> int {
        self.next as int
    }

    pub open spec fn wf(&self) -> bool {
        0 <= self.cursor() <= self.chunks_model().len()
    }

    /// The chunks delivered so far, in order.
    pub open spec fn delivered(&self) -> Seq<Seq<TrackingEvent>> {
        self.chunks_model().take(self.cursor())
    }

    /// The chunks not yet delivered, in order; the first is in flight.
    pub open spec fn pending(&self) -> Seq<Seq<TrackingEvent>> {
        self.chunks_model().skip(self.cursor())
    }

    /// Whether every chunk of the snapshot has been delivered.
    pub open spec fn done(&self) -> bool {
        self.cursor() == self.chunks_model().len()
    }

    /// Starts delivering one drained snapshot: chunks it and puts the cursor
    /// before the first chunk. An empty snapshot is done at once.
    pub fn new(drained: Vec<TrackingEvent>) -> (r: Flusher)
        ensures
            r.wf(),
            r.chunks_model() == spec_chunks(drained@),
            r.cursor() == 0,
    {
        Flusher { chunks: into_chunks(drained), next: 0 }
    }

    /// The chunk to send now: `None` exactly when the snapshot is fully
    /// delivered.
    pub fn current_chunk(&self) -> (r: Option<&Vec<TrackingEvent>>)
        requires
            self.wf(),
        ensures
            match r {
                Some(c) => !self.done() && c@ == self.chunks_model()[self.cursor()],
                None => self.done(),
            },
    {
        if self.next < self.chunks.len() {
            Some(&self.chunks[self.next])
        } else {
            None
        }
    }

    /// The action to take before any send outcome exists: send the first
    /// pending chunk, or — for a snapshot with nothing to send — wait out
    /// the tick. A snapshot with no events costs no send at all.
    pub fn next_action(&self) -> (a: FlushAction)
        requires
            self.wf(),
        ensures
            self.done() ==> a == FlushAction::WaitTick,
            !self.done() ==> a == FlushAction::SendNow,
    {
        if self.next < self.chunks.len() {
            FlushAction::SendNow
        } else {
            FlushAction::WaitTick
        }
    }

    /// Moves the machine by one send outcome for the current chunk.
    ///
    /// On success the current chunk — and only it — joins the delivered
    /// sequence, and the cursor advances to the next chunk (or the snapshot
    /// is done and the tick delay follows). On failure nothing changes: the
    /// same chunk stays in flight, no event is dropped or reordered, and the
    /// retry delay is prescribed before the next attempt.
    pub fn record(&mut self, outcome: Result<(), Error>) -> (a: FlushAction)
        requires
            old(self).wf(),
            !old(self).done(),
        ensures
            final(self).wf(),
            final(self).chunks_model() == old(self).chunks_model(),
            outcome is Ok ==> final(self).cursor() == old(self).cursor() + 1,
            outcome is Ok ==> final(self).delivered() == old(self).delivered().push(
                old(self).chunks_model()[old(self).cursor()],
            ),
            outcome is Ok ==> final(self).pending() == old(self).pending().drop_first(),
            outcome is Err ==> final(self).cursor() == old(self).cursor(),
            outcome is Err ==> a == FlushAction::WaitRetry,
            outcome is Ok && final(self).done() ==> a == FlushAction::WaitTick,
            outcome is Ok && !final(self).done() ==> a == FlushAction::SendNow,
    {
        match outcome {
            Ok(()) => {
                proof {
                    assert(old(self).cursor() < old(self).chunks_model().len());
                    assert(self.chunks_model().len() == self.chunks@.len());
                    assert(self.next < self.chunks.len());
                }
                self.next = self.next + 1;
                proof {
                    assert(self.delivered() =~= old(self).delivered().push(
                        old(self).chunks_model()[old(self).cursor()],
                    ));
                    assert(self.pending() =~= old(self).pending().drop_first());
                }
                if self.next < self.chunks.len() {
                    FlushAction::SendNow
                } else {
                    FlushAction::WaitTick
                }
            },
            Err(_) => FlushAction::WaitRetry,
        }
    }
}

/// The cursor after a run of send outcomes, each applied as `record` applies
/// it: success advances past one chunk, failure stands still.
pub open spec fn cursor_after(next: int, outcomes: Seq<bool>) -> int
    decreases outcomes.len(),
{
    if outcomes.len() == 0 {
        next
    } else {
        cursor_after(if outcomes[0] { next + 1 } else { next }, outcomes.skip(1))
    }
}

/// No drop on failure: if the first attempts for the chunk at the cursor all
/// fail and the last attempt succeeds, the cursor lands exactly one past the
/// chunk — the chunk's events join the delivered sequence exactly once, and
/// strictly before any events of the chunks after it, which are untouched.
pub proof fn lemma_no_drop_on_failure(chunks: Seq<Seq<TrackingEvent>>, next: int, outcomes: Seq<bool>)
    requires
        0 <= next < chunks.len(),
        outcomes.len() > 0,
        forall|i: int| 0 <= i < outcomes.len() - 1 ==> !outcomes[i],
        outcomes.last(),
    ensures
        cursor_after(next, outcomes) == next + 1,
        chunks.take(next + 1) == chunks.take(next).push(chunks[next]),
        chunks.skip(next + 1) == chunks.skip(next).drop_first(),
    decreases outcomes.len(),
{
    assert(chunks.take(next + 1) =~= chunks.take(next).push(chunks[next]));
    assert(chunks.skip(next + 1) =~= chunks.skip(next).drop_first());
    if outcomes.len() == 1 {
        assert(outcomes[0]);
        assert(outcomes.skip(1).len() == 0);
        assert(cursor_after(next, outcomes) == cursor_after(next + 1, outcomes.skip(1)));
    } else {
        assert(!outcomes[0]);
        let rest = outcomes.skip(1);
        assert(rest.last() == outcomes.last());
        assert(forall|i: int| 0 <= i < rest.len() - 1 ==> !rest[i]) by {
            assert(forall|i: int| 0 <= i < rest.len() - 1 ==> rest[i] == outcomes[i + 1]);
        }
        lemma_no_drop_on_failure(chunks, next, rest);
        assert(cursor_after(next, outcomes) == cursor_after(next, rest));
    }
}

/// End to end: when the flusher for one drained snapshot is done, the
/// delivered chunks concatenated in order are exactly the snapshot — every
/// drained event is shipped, exactly once, in enqueue order, however many
/// failed attempts stood in between.
pub proof fn lemma_snapshot_delivered(f: Flusher, snapshot: Seq<TrackingEvent>)
    requires
        f.wf(),
        f.done(),
        f.chunks_model() == spec_chunks(snapshot),
    ensures
        f.delivered().flatten() == snapshot,
{
    assert(f.delivered() =~= f.chunks_model());
    lemma_chunking(snapshot);
}

/// Retry cadence: a failed attempt prescribes the 500 ms retry delay before
/// the same chunk is attempted again, and a fully delivered snapshot
/// prescribes the 1 s tick delay before the next drain.
pub proof fn lemma_retry_cadence()
    ensures
        FlushAction::WaitRetry.spec_delay_ms() == 500,
        FlushAction::WaitTick.spec_delay_ms() == 1000,
        RETRY_DELAY_MS == 500,
        TICK_DELAY_MS == 1000,
{
}

} // verus!
