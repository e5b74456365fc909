//! The session runtime's decisions, shared by console and service hosts.
//!
//! A host boots the agent, starts the scheduler and the event sources, and hands
//! what the stop channel delivers to the pipeline until a stop arrives or the
//! session has finalized itself; then it shuts the agent down.

use vstd::prelude::*;

use crate::app::event::SandboxEvent;
use crate::domain::scope::ScopeState;

verus! {

/// How often a host looks whether the session has finalized itself, milliseconds.
pub const POLL_PERIOD_MS: u64 = 250;

/// Capacity of the stop channel.
pub const STOP_CHANNEL_CAPACITY: usize = 8;

/// Capacity of the bus.
pub const BUS_CAPACITY: usize = 4096;

/// Has the current session been finalized, or does its finalization at least run?
pub fn is_finalized(state: &ScopeState) -> (finalized: bool)
    ensures
        finalized == (state@.sessions.len() > 0 && state@.sessions.last().ended_at_ms is Some),
{
    match state.current_session() {
        Some(session) => {
            proof {
                assert(state@.sessions.last() == session@);
            }
            session.ended_at_ms.is_some()
        },
        None => false,
    }
}

/// What a host waits for.
#[derive(Debug)]
pub enum HostEvent {
    /// The stop channel delivered an event.
    Received(SandboxEvent),
    /// The stop channel was closed.
    Closed,
    /// Nothing came for a while; has a finalization fully completed?
    Quiet(bool),
}

/// What a host does.
#[derive(Debug)]
pub enum HostAction {
    /// Hand the event to the pipeline and go on.
    Accept(SandboxEvent),
    /// Hand the event to the pipeline, then shut down.
    AcceptAndStop(SandboxEvent),
    /// Go on.
    Wait,
    /// Shut down.
    Stop,
}

/// What a host does about what it waited for.
pub open spec fn answers(event: HostEvent, action: HostAction) -> bool {
    match event {
        HostEvent::Received(received) => action == if received is ServiceStop {
            HostAction::AcceptAndStop(received)
        } else {
            HostAction::Accept(received)
        },
        HostEvent::Closed => action is Stop,
        HostEvent::Quiet(finalize_done) => action == if finalize_done {
            HostAction::Stop
        } else {
            HostAction::Wait
        },
    }
}

/// What a host does about what it waited for. A session that finalizes itself is
/// only left once its finalization has fully completed, final reports included.
pub fn run_until_stop(event: HostEvent) -> (action: HostAction)
    ensures
        answers(event, action),
{
    match event {
        HostEvent::Received(received) => {
            let stops = match &received {
                SandboxEvent::ServiceStop => true,
                _ => false,
            };
            if stops {
                HostAction::AcceptAndStop(received)
            } else {
                HostAction::Accept(received)
            }
        },
        HostEvent::Closed => HostAction::Stop,
        HostEvent::Quiet(finalize_done) => if finalize_done {
            HostAction::Stop
        } else {
            HostAction::Wait
        },
    }
}

} // verus!
