use vstd::prelude::*;

verus! {

/// The per-event execution context: when and from where the event arrived.
/// Built once per event and discarded with it; context-sensitive builtins
/// resolve against it during guard evaluation.
#[derive(PartialEq, Debug)]
pub struct EventContext {
    pub ingest_ns: u64,
    pub origin_uri: Option<String>,
}

impl EventContext {
    /// Builds the context for one event. Pure: no failure mode, no side
    /// effect; the result carries exactly the two inputs.
    pub fn new(ingest_ns: u64, origin_uri: &Option<String>) -> (r: EventContext)
        ensures
            r.ingest_ns == ingest_ns,
            r.origin_uri == *origin_uri,
    {
        let origin: Option<String> = match origin_uri {
            Some(s) => Some(s.clone()),
            None => None,
        };
        EventContext { ingest_ns, origin_uri: origin }
    }
}

} // verus!
