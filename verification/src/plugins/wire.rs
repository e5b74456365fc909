//! Envelope composition for everything that publishes to the wire.

use vstd::prelude::*;

use crate::app::event::SourceEvent;
use crate::domain::scope::{ScopeModel, ScopeState};
use crate::domain::study_id::StudyId;
use crate::protocol::events::EventType;
use crate::protocol::nats::{Envelope, PROTOCOL_VERSION};
use crate::protocol::payload::Payload;

verus! {

/// The sequence number that follows another.
pub open spec fn following(seq: u64) -> u64 {
    if seq == u64::MAX {
        0
    } else {
        (seq + 1) as u64
    }
}

/// The message that carries `data` in the current session of a study.
pub open spec fn message(state: ScopeModel, seq: u64, now_ms: i64, data: Payload) -> Envelope {
    Envelope {
        v: PROTOCOL_VERSION,
        event_type: data.kind(),
        ts: now_ms,
        study: state.study_id,
        session: state.session_id(),
        seq,
        data,
    }
}

/// Sequence number for one boot's wire output (Controller-side loss detection).
/// Shared by every publisher in the process.
pub fn next_seq(seq: &mut u64) -> (taken: u64)
    ensures
        taken == *old(seq),
        *final(seq) == following(*old(seq)),
{
    let taken: u64 = *seq;
    *seq = if taken == u64::MAX {
        0
    } else {
        taken + 1
    };
    taken
}

/// Compose an envelope from a source event (wire type and payload derived 1:1).
pub fn envelope_from_source(
    now_ms: i64,
    seq: u64,
    study_id: StudyId,
    session_id: u32,
    source: &SourceEvent,
) -> (envelope: Envelope)
    ensures
        envelope.wf(),
        envelope == (Envelope {
            v: PROTOCOL_VERSION,
            event_type: source.kind(),
            ts: now_ms,
            study: study_id,
            session: session_id,
            seq,
            data: source.payload(),
        }),
{
    Envelope {
        v: PROTOCOL_VERSION,
        event_type: source.event_type(),
        ts: now_ms,
        study: study_id,
        session: session_id,
        seq,
        data: source.clone().into_payload(),
    }
}

/// Compose an envelope from an explicit event type + payload.
pub fn envelope_raw(
    now_ms: i64,
    seq: u64,
    study_id: StudyId,
    session_id: u32,
    event_type: EventType,
    data: Payload,
) -> (envelope: Envelope)
    ensures
        event_type == data.kind() ==> envelope.wf(),
        envelope == (Envelope {
            v: PROTOCOL_VERSION,
            event_type,
            ts: now_ms,
            study: study_id,
            session: session_id,
            seq,
            data,
        }),
{
    Envelope { v: PROTOCOL_VERSION, event_type, ts: now_ms, study: study_id, session: session_id, seq, data }
}

/// The next message of the current session: the study's and session's ids come
/// from the scope, the sequence number is taken.
pub fn compose(
    state: &ScopeState,
    seq: &mut u64,
    now_ms: i64,
    event_type: EventType,
    data: Payload,
) -> (envelope: Envelope)
    requires
        event_type == data.kind(),
    ensures
        envelope == message(state@, *old(seq), now_ms, data),
        envelope.wf(),
        *final(seq) == following(*old(seq)),
{
    let taken: u64 = next_seq(seq);
    envelope_raw(now_ms, taken, state.study_id, state.session_id(), event_type, data)
}

} // verus!
