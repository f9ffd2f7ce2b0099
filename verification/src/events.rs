//! The event log of the current invocation.
//!
//! The host environment owns the real, append-only log; the entrypoint only
//! appends to it and never reads or locks it. The host's event-publishing
//! facility is modelled here as a value handed into the entrypoint, so that
//! what publication does to the log is stated and proved rather than left
//! to ambient state.

use vstd::prelude::*;

verus! {

/// One record of the event log: a topic tag and a payload byte string.
#[derive(Clone, Debug, PartialEq, Eq)]
pub struct Event {
    /// The symbolic tag the event is filed under.
    pub topic: String,
    /// The event's payload bytes.
    pub payload: Vec<u8>,
}

/// The model of an event: the topic's characters and the payload bytes.
pub struct EventView {
    pub topic: Seq<char>,
    pub payload: Seq<u8>,
}

impl View for Event {
    type V = EventView;

    open spec fn view(&self) -> EventView {
        EventView { topic: self.topic@, payload: self.payload@ }
    }
}

/// The append-only event log of one invocation. Publication appends one
/// event; nothing ever removes or rewrites one.
pub struct EventLog {
    events: Vec<Event>,
}

impl View for EventLog {
    type V = Seq<EventView>;

    closed spec fn view(&self) -> Seq<EventView> {
        self.events@.map_values(|e: Event| e@)
    }
}

impl EventLog {
    /// An empty log, as the host hands one to a fresh invocation.
    pub fn new() -> (log: EventLog)
        ensures
            log@ == Seq::<EventView>::empty(),
    {
        let log = EventLog { events: Vec::new() };
        proof {
            assert(log@ =~= Seq::<EventView>::empty());
        }
        log
    }

    /// Append one event with the given topic and payload; every event
    /// already in the log stays as it was.
    pub fn publish(&mut self, topic: String, payload: Vec<u8>)
        ensures
            final(self)@ == old(self)@.push((EventView { topic: topic@, payload: payload@ })),
    {
        let ghost topic_view: Seq<char> = topic@;
        let ghost payload_view: Seq<u8> = payload@;
        self.events.push(Event { topic, payload });
        proof {
            assert(self@ =~= old(self)@.push(
                (EventView { topic: topic_view, payload: payload_view }),
            ));
        }
    }

    /// How many events the log holds.
    pub fn len(&self) -> (n: usize)
        ensures
            n == self@.len(),
    {
        self.events.len()
    }

    /// The event at position `i`, in order of publication.
    pub fn get(&self, i: usize) -> (e: &Event)
        requires
            i < self@.len(),
        ensures
            e@ == self@[i as int],
    {
        &self.events[i]
    }
}

} // verus!
