//! The event type shipped to the ingest endpoint, and its mathematical model.

use vstd::prelude::*;

verus! {

/// The model of one event: a timestamp and a sequence of attribute
/// name/value pairs, all as character sequences.
pub ghost struct EventModel {
    pub timestamp: Seq<char>,
    pub attributes: Seq<(Seq<char>, Seq<char>)>,
}

/// The model of a name/value pair list.
pub open spec fn pair_models(ps: Seq<(String, String)>) -> Seq<(Seq<char>, Seq<char>)> {
    ps.map_values(|p: (String, String)| (p.0@, p.1@))
}

/// One unit of structured data submitted by the host application: a timestamp
/// string (opaque to this library, in whatever format the ingest service
/// dictates) and attribute name/value pairs. Attribute keys are expected to be
/// unique within one event; their order is irrelevant to the ingest service
/// and is preserved as given.
#[derive(Clone, Debug)]
pub struct TrackingEvent {
    pub timestamp: String,
    pub attributes: Vec<(String, String)>,
}

impl View for TrackingEvent {
    type V = EventModel;

    open spec fn view(&self) -> EventModel {
        EventModel {
            timestamp: self.timestamp@,
            attributes: pair_models(self.attributes@),
        }
    }
}

impl Default for TrackingEvent {
    /// The empty event: an empty timestamp and no attributes.
    fn default() -> (r: TrackingEvent)
        ensures
            r@.timestamp == Seq::<char>::empty(),
            r@.attributes == Seq::<(Seq<char>, Seq<char>)>::empty(),
    {
        let r = TrackingEvent { timestamp: String::new(), attributes: Vec::new() };
        proof {
            assert(r@.attributes =~= Seq::<(Seq<char>, Seq<char>)>::empty());
        }
        r
    }
}

/// The model of a sequence of events.
pub open spec fn event_models(evs: Seq<TrackingEvent>) -> Seq<EventModel> {
    evs.map_values(|e: TrackingEvent| e@)
}

} // verus!
