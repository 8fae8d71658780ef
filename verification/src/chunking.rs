//! Partitioning a drained snapshot into contiguous chunks of at most
//! `CHUNK_SIZE` events, preserving order within and across chunks.

use vstd::prelude::*;

use crate::event::TrackingEvent;

verus! {

/// The largest number of events one HTTP request carries.
pub const CHUNK_SIZE: usize = 10;

/// The chunks of `s`: contiguous pieces of `CHUNK_SIZE` events, in order,
/// with the remainder (if any) as a final shorter chunk. An empty snapshot
/// has no chunks.
pub open spec fn spec_chunks<T>(s: Seq<T>) -> Seq<Seq<T>>
    decreases s.len(),
{
    if s.len() == 0 {
        Seq::empty()
    } else if s.len() <= CHUNK_SIZE {
        seq![s]
    } else {
        seq![s.take(CHUNK_SIZE as int)] + spec_chunks(s.skip(CHUNK_SIZE as int))
    }
}

/// The chunk views of a vector of chunks.
pub open spec fn chunk_views(cs: Seq<Vec<TrackingEvent>>) -> Seq<Seq<TrackingEvent>> {
    cs.map_values(|c: Vec<TrackingEvent>| c@)
}

/// Partitions a drained snapshot into chunks of at most `CHUNK_SIZE` events,
/// preserving order. The result is exactly `spec_chunks` of the input.
pub fn into_chunks(events: Vec<TrackingEvent>) -> (r: Vec<Vec<TrackingEvent>>)
    ensures
        chunk_views(r@) == spec_chunks(events@),
{
    let ghost orig: Seq<TrackingEvent> = events@;
    let mut rest: Vec<TrackingEvent> = events;
    let mut chunks: Vec<Vec<TrackingEvent>> = Vec::new();
    while rest.len() > CHUNK_SIZE
        invariant
            spec_chunks(orig) == chunk_views(chunks@) + spec_chunks(rest@),
        decreases rest@.len(),
    {
        let tail = rest.split_off(CHUNK_SIZE);
        proof {
            assert(chunk_views(chunks@.push(rest)) =~= chunk_views(chunks@).push(rest@));
        }
        chunks.push(rest);
        rest = tail;
        proof {
            assert(chunk_views(chunks@) + spec_chunks(rest@) =~= spec_chunks(orig));
        }
    }
    if rest.len() > 0 {
        proof {
            assert(chunk_views(chunks@.push(rest)) =~= chunk_views(chunks@).push(rest@));
        }
        chunks.push(rest);
    }
    proof {
        assert(chunk_views(chunks@) =~= spec_chunks(orig));
    }
    chunks
}

/// Chunking arithmetic: a snapshot of `M` events yields exactly
/// `ceil(M / CHUNK_SIZE)` chunks; every chunk but the last holds exactly
/// `CHUNK_SIZE` events, the last holds the remainder (or a full chunk when
/// `CHUNK_SIZE` divides `M`); and the chunks concatenated in order are the
/// snapshot itself. A snapshot of zero events yields zero chunks.
pub proof fn lemma_chunking<T>(s: Seq<T>)
    ensures
        spec_chunks(s).len() == (s.len() as int + CHUNK_SIZE - 1) / (CHUNK_SIZE as int),
        forall|i: int|
            0 <= i < spec_chunks(s).len() - 1 ==> (#[trigger] spec_chunks(s)[i]).len()
                == CHUNK_SIZE,
        spec_chunks(s).len() > 0 ==> spec_chunks(s).last().len() == (if s.len() as int % (
        CHUNK_SIZE as int) == 0 {
            CHUNK_SIZE as int
        } else {
            s.len() as int % (CHUNK_SIZE as int)
        }),
        spec_chunks(s).flatten() == s,
    decreases s.len(),
{
    if s.len() == 0 {
        assert(spec_chunks(s).flatten() =~= s);
    } else if s.len() <= CHUNK_SIZE {
        assert(spec_chunks(s) == seq![s]);
        assert(spec_chunks(s).flatten() =~= s) by {
            assert(seq![s].drop_first() =~= Seq::<Seq<T>>::empty());
            assert(seq![s].first() == s);
            assert(Seq::<Seq<T>>::empty().flatten() =~= Seq::<T>::empty());
        }
    } else {
        let head = s.take(CHUNK_SIZE as int);
        let tail = s.skip(CHUNK_SIZE as int);
        lemma_chunking(tail);
        assert(spec_chunks(s) == seq![head] + spec_chunks(tail));
        assert(spec_chunks(s).last() == spec_chunks(tail).last());
        assert(tail.len() as int % (CHUNK_SIZE as int) == s.len() as int % (CHUNK_SIZE as int));
        assert(spec_chunks(s).flatten() =~= head + spec_chunks(tail).flatten()) by {
            assert((seq![head] + spec_chunks(tail)).drop_first() =~= spec_chunks(tail));
            assert((seq![head] + spec_chunks(tail)).first() == head);
        }
        assert(head + tail =~= s);
    }
}

} // verus!
