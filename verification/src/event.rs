//! A decoded governance-request event, as the orchestrator reads it.
//!
//! The external event feed delivers structured notifications; the
//! unverified boundary decodes each one into this model. The orchestrator
//! is driven by these fields only and assumes nothing further about the
//! payload. Fields a payload may lack are optional here; the accessors
//! fall back to empty defaults exactly where the processing pipeline does.

use vstd::prelude::*;

verus! {

/// One record of an event's `data` array.
pub struct EventRecord {
    /// The correlation key every subsequent action on this event carries.
    pub request_id: Option<String>,
    /// Chain-clock start of the request's first stage window, for the
    /// stage query.
    pub start_time: Option<u64>,
}

/// A decoded on-chain notification that a new request needs processing.
pub struct GovernanceEvent {
    /// Protocol tag of the event standard.
    pub standard: String,
    /// Version of the event standard.
    pub version: String,
    /// The event-kind string.
    pub event: String,
    /// The structured payload records; the first one drives processing.
    pub data: Vec<EventRecord>,
}

impl GovernanceEvent {
    /// The correlation key: the first record's `request_id`, or empty
    /// when the payload carries none.
    pub open spec fn spec_request_id(&self) -> Seq<char> {
        if self.data@.len() > 0 {
            match self.data@[0].request_id {
                Some(s) => s@,
                None => Seq::empty(),
            }
        } else {
            Seq::empty()
        }
    }

    /// The first record's `start_time`, or zero when the payload carries
    /// none.
    pub open spec fn spec_start_time(&self) -> u64 {
        if self.data@.len() > 0 {
            match self.data@[0].start_time {
                Some(t) => t,
                None => 0,
            }
        } else {
            0
        }
    }

    /// Executable form of [`GovernanceEvent::spec_request_id`].
    pub fn request_id(&self) -> (r: String)
        ensures
            r@ == self.spec_request_id(),
    {
        if self.data.len() > 0 {
            let rec = &self.data[0];
            match &rec.request_id {
                Some(s) => s.clone(),
                None => String::new(),
            }
        } else {
            String::new()
        }
    }

    /// Executable form of [`GovernanceEvent::spec_start_time`].
    pub fn start_time(&self) -> (r: u64)
        ensures
            r == self.spec_start_time(),
    {
        if self.data.len() > 0 {
            let rec = &self.data[0];
            match &rec.start_time {
                Some(t) => *t,
                None => 0,
            }
        } else {
            0
        }
    }
}

} // verus!
