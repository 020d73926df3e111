use crate::value::Value;
use vstd::prelude::*;

verus! {

/// One event of the stream: an immutable payload, mutable metadata, an
/// ingest timestamp and an origin locator. Produced upstream; this operator
/// either forwards it unchanged or drops it.
#[derive(PartialEq, Debug)]
pub struct Event {
    pub ingest_ns: u64,
    pub origin_uri: Option<String>,
    pub data: Value,
    pub meta: Value,
}

impl Event {
    /// The payload/metadata split that guard evaluation works on.
    pub fn parts(&self) -> (r: (&Value, &Value))
        ensures
            *r.0 == self.data,
            *r.1 == self.meta,
    {
        (&self.data, &self.meta)
    }

    /// A structurally equal copy of the event, equal to the original.
    pub fn duplicate(&self) -> (r: Event)
        ensures
            r == *self,
    {
        let origin: Option<String> = match &self.origin_uri {
            Some(s) => Some(s.clone()),
            None => None,
        };
        Event {
            ingest_ns: self.ingest_ns,
            origin_uri: origin,
            data: self.data.duplicate(),
            meta: self.meta.duplicate(),
        }
    }
}

/// The result of handling one event: the forwarded events (zero or one for
/// this operator) and the insight signals (always none for this operator).
#[derive(PartialEq, Debug)]
pub struct EventAndInsights {
    pub events: Vec<Event>,
    pub insights: Vec<Event>,
}

impl EventAndInsights {
    /// The dropped-event result: no output, no insights.
    pub fn none() -> (r: EventAndInsights)
        ensures
            r.events@ == Seq::<Event>::empty(),
            r.insights@ == Seq::<Event>::empty(),
    {
        EventAndInsights { events: Vec::new(), insights: Vec::new() }
    }

    /// The forwarded-event result: exactly the given event, no insights.
    pub fn just(event: Event) -> (r: EventAndInsights)
        ensures
            r.events@ == seq![event],
            r.insights@ == Seq::<Event>::empty(),
    {
        let mut events: Vec<Event> = Vec::new();
        events.push(event);
        let r = EventAndInsights { events, insights: Vec::new() };
        proof {
            assert(r.events@ =~= seq![event]);
        }
        r
    }
}

} // verus!
