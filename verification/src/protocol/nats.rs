//! The wire envelope.

use vstd::prelude::*;

use crate::domain::study_id::StudyId;
use crate::protocol::events::EventType;
use crate::protocol::payload::Payload;

verus! {

/// Version of the envelope and its payloads.
pub const PROTOCOL_VERSION: u32 = 3;

/// One wire message.
#[derive(Debug, PartialEq, Eq)]
pub struct Envelope {
    /// Protocol version.
    pub v: u32,
    /// What happened.
    pub event_type: EventType,
    /// When, unix milliseconds (the VM's fake clock).
    pub ts: i64,
    /// In which study.
    pub study: StudyId,
    /// In which session.
    pub session: u32,
    /// Sequence number: consecutive per boot, so that a gap shows a loss.
    pub seq: u64,
    /// The details.
    pub data: Payload,
}

impl Envelope {
    /// The version is the current one, and the payload belongs to the type.
    pub open spec fn wf(self) -> bool {
        self.v == PROTOCOL_VERSION && self.data.kind() == self.event_type
    }
}

} // verus!
