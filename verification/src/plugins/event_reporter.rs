//! `event-reporter`: forwards pipeline events to the wire (verbosity-gated) and
//! translates derived bus events into wire events.
//!
//! Source telemetry goes out only under full verbosity. Derived lifecycle and
//! drop events are always published.

use vstd::prelude::*;

use crate::app::event::{AgentBusEvent, SandboxEvent};
use crate::domain::scope::{ScopeModel, ScopeState};
use crate::plugins::wire::{compose, envelope_from_source, following, message, next_seq};
use crate::protocol::config::EventVerbosity;
use crate::protocol::events::EventType;
use crate::protocol::nats::Envelope;
use crate::protocol::payload::{DropClosedData, DropObservedData, Payload, ScopeDiedData};

verus! {

/// Reporter plugin.
#[derive(Debug, Clone, Copy)]
pub struct EventReporterPlugin {
    /// How much source telemetry is forwarded.
    pub verbosity: EventVerbosity,
}

/// The wire payload of a bus event; membership events, launches and score raises
/// have none: they are reported elsewhere, or nowhere.
pub open spec fn bus_payload(event: AgentBusEvent) -> Option<Payload> {
    match event {
        AgentBusEvent::DropObserved { path, pid } => Some(
            Payload::DropObserved(DropObservedData { path, pid }),
        ),
        AgentBusEvent::DropClosed { path } => Some(Payload::DropClosed(DropClosedData { path })),
        AgentBusEvent::ScopeDied => Some(Payload::ScopeDied(ScopeDiedData {  })),
        _ => None,
    }
}

/// What the plugin publishes of a bus event.
pub open spec fn relays(
    state: ScopeModel,
    seq: u64,
    now_ms: i64,
    event: AgentBusEvent,
    envelope: Option<Envelope>,
    seq_after: u64,
) -> bool {
    match bus_payload(event) {
        Some(data) => {
            &&& envelope == Some(message(state, seq, now_ms, data))
            &&& seq_after == following(seq)
        },
        None => envelope is None && seq_after == seq,
    }
}

/// What the plugin publishes of a pipeline event.
pub open spec fn passes_on(
    verbosity: EventVerbosity,
    state: ScopeModel,
    seq: u64,
    now_ms: i64,
    event: SandboxEvent,
    envelope: Option<Envelope>,
    seq_after: u64,
) -> bool {
    match (event, verbosity) {
        (SandboxEvent::Source(source), EventVerbosity::Full) => {
            &&& envelope == Some(message(state, seq, now_ms, source.payload()))
            &&& seq_after == following(seq)
        },
        _ => envelope is None && seq_after == seq,
    }
}

impl EventReporterPlugin {
    /// Assemble the plugin.
    pub fn new(verbosity: EventVerbosity) -> (plugin: Self)
        ensures
            plugin.verbosity == verbosity,
    {
        EventReporterPlugin { verbosity }
    }

    /// Take in a bus event; returns the message to publish on the event channel.
    pub fn on_bus(&self, state: &ScopeState, seq: &mut u64, now_ms: i64, event: AgentBusEvent) -> (envelope: Option<
        Envelope,
    >)
        ensures
            relays(state@, *old(seq), now_ms, event, envelope, *final(seq)),
    {
        match event {
            AgentBusEvent::DropObserved { path, pid } => Some(
                compose(
                    state,
                    seq,
                    now_ms,
                    EventType::DropObserved,
                    Payload::DropObserved(DropObservedData { path, pid }),
                ),
            ),
            AgentBusEvent::DropClosed { path } => Some(
                compose(
                    state,
                    seq,
                    now_ms,
                    EventType::DropClosed,
                    Payload::DropClosed(DropClosedData { path }),
                ),
            ),
            AgentBusEvent::ScopeDied => Some(
                compose(
                    state,
                    seq,
                    now_ms,
                    EventType::ScopeDied,
                    Payload::ScopeDied(ScopeDiedData {  }),
                ),
            ),
            _ => None,
        }
    }

    /// Take in a pipeline event; returns the message to publish on the event
    /// channel.
    pub fn pre(&self, state: &ScopeState, seq: &mut u64, now_ms: i64, event: &SandboxEvent) -> (envelope: Option<
        Envelope,
    >)
        ensures
            passes_on(self.verbosity, state@, *old(seq), now_ms, *event, envelope, *final(seq)),
    {
        match event {
            SandboxEvent::Source(source) => if self.verbosity == EventVerbosity::Full {
                let taken: u64 = next_seq(seq);
                Some(
                    envelope_from_source(now_ms, taken, state.study_id, state.session_id(), source),
                )
            } else {
                None
            },
            _ => None,
        }
    }
}

} // verus!
