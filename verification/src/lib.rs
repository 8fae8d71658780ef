//! Client-side log shipper core: events are enqueued into an outbox, drained
//! in one atomic swap, partitioned into chunks of at most ten, encoded as a
//! JSON ingest body, and handed to a transport as plain request parts. The
//! flusher state machine prescribes the retry discipline: a failed chunk is
//! retried after the retry delay, never skipped; a delivered snapshot is
//! followed by the tick delay.
//!
//! The embedder owns the clock, the mutex, the task and the transport: it
//! serializes `push` and `tick` behind one lock, performs each prescribed
//! `FlushAction`, issues each `RequestParts` as an HTTPS POST, and reports
//! every outcome back to the `Flusher`.

use vstd::prelude::*;

mod chunking;
mod error;
mod event;
mod flusher;
mod json;
mod outbox;
mod wire;

pub use chunking::{into_chunks, lemma_chunking, spec_chunks, CHUNK_SIZE};
pub use error::Error;
pub use event::{event_models, pair_models, EventModel, TrackingEvent};
pub use flusher::{
    cursor_after, lemma_no_drop_on_failure, lemma_retry_cadence, lemma_snapshot_delivered,
    FlushAction, Flusher,
    RETRY_DELAY_MS, TICK_DELAY_MS,
};
pub use json::{
    escaped, escaped_char, ingest_body, ingest_body_string, json_event, json_events, json_member,
    json_members, json_object, json_string,
};
pub use outbox::{after_enqueues, lemma_drain_atomicity, Outbox};
pub use wire::{auth_header_value, request_parts, spec_auth_header, RequestParts, HUMIO_ENDPOINT};

verus! {

/// A handle on the shipper: the outbox the producers fill, and the immutable
/// configuration — tag set, bearer credential, endpoint URL — that every
/// request carries. The embedder shares one value of this type between all
/// producers and the single flusher task it spawns for it.
pub struct HumioLogger {
    pub outbox: Outbox,
    pub tags: Vec<(String, String)>,
    pub key: String,
    pub url: String,
}

impl HumioLogger {
    /// A new logger for a bearer credential and a tag set, with an empty
    /// outbox and the default ingest endpoint. The credential and the tags
    /// are stored unaltered: every request this logger ever describes
    /// carries exactly them.
    pub fn new(key: String, tags: Vec<(String, String)>) -> (r: HumioLogger)
        ensures
            r.outbox@ == Seq::<TrackingEvent>::empty(),
            r.tags == tags,
            r.key == key,
            r.url@ == HUMIO_ENDPOINT@,
    {
        HumioLogger {
            outbox: Outbox::new(),
            tags,
            key,
            url: String::from_str(HUMIO_ENDPOINT),
        }
    }

    /// Appends one event to the outbox. Never fails, never rejects; the
    /// configuration is untouched.
    pub fn push(&mut self, ev: TrackingEvent)
        ensures
            final(self).outbox@ == old(self).outbox@.push(ev),
            final(self).tags == old(self).tags,
            final(self).key == old(self).key,
            final(self).url == old(self).url,
    {
        self.outbox.enqueue(ev);
    }

    /// One tick of the flush loop: atomically drains the outbox and chunks
    /// the snapshot. The returned machine walks exactly the chunks of what
    /// was pending, in enqueue order; the outbox is left empty.
    pub fn tick(&mut self) -> (f: Flusher)
        ensures
            f.wf(),
            f.cursor() == 0,
            f.chunks_model() == spec_chunks(old(self).outbox@),
            final(self).outbox@ == Seq::<TrackingEvent>::empty(),
            final(self).tags == old(self).tags,
            final(self).key == old(self).key,
            final(self).url == old(self).url,
    {
        let drained = self.outbox.drain();
        Flusher::new(drained)
    }

    /// The request that ships one chunk: a POST of the ingest body for this
    /// logger's tag set and the chunk's events, to this logger's URL,
    /// bearing this logger's credential.
    pub fn request_for(&self, chunk: &Vec<TrackingEvent>) -> (r: RequestParts)
        ensures
            r.method@ == "POST"@,
            r.url@ == self.url@,
            r.auth@ == spec_auth_header(self.key@),
            r.body@ == ingest_body(pair_models(self.tags@), event_models(chunk@)),
    {
        request_parts(self.url.as_str(), self.key.as_str(), &self.tags, chunk)
    }
}

} // verus!
