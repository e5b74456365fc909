//! Time-driven events: when the session's deadline comes, and the heartbeat.
//!
//! The heartbeat bypasses the pipeline: it is pure periodic wire output, not
//! sandbox telemetry. The deadline is a pipeline event because it drives the
//! session.

use vstd::prelude::*;

use crate::domain::scope::{ScopeModel, ScopeState};
use crate::plugins::wire::{compose, following, message};
use crate::ports::Channel;
use crate::protocol::events::EventType;
use crate::protocol::nats::Envelope;
use crate::protocol::payload::{ControlKeepaliveData, Payload};

verus! {

/// Heartbeat period, seconds.
pub const KEEPALIVE_PERIOD_SECS: u64 = 15;

/// Seconds that have passed since a session was opened; a clock that was set back
/// counts as no time.
pub open spec fn elapsed_secs(started_at_ms: int, now_ms: int) -> int {
    if now_ms <= started_at_ms {
        0
    } else {
        (now_ms - started_at_ms) / 1000
    }
}

/// Seconds from now until the current session's deadline; `None` = it has none.
pub open spec fn delay_secs(state: ScopeModel, now_ms: i64) -> Option<u64> {
    if state.sessions.len() == 0 {
        None
    } else {
        let session = state.sessions.last();
        match session.scheduled_duration_secs {
            None => None,
            Some(scheduled) => {
                let elapsed = elapsed_secs(session.started_at_ms as int, now_ms as int);
                Some(
                    if elapsed >= scheduled {
                        0u64
                    } else {
                        (scheduled - elapsed) as u64
                    },
                )
            },
        }
    }
}

/// The sign of life, and the channel that it goes out on.
pub open spec fn beats(
    state: ScopeModel,
    seq: u64,
    now_ms: i64,
    beat: (Channel, Envelope),
    seq_after: u64,
) -> bool {
    &&& beat.0 == Channel::Control
    &&& beat.1 == message(state, seq, now_ms, Payload::ControlKeepalive(ControlKeepaliveData {  }))
    &&& seq_after == following(seq)
}

/// Time-driven event source: the deadline (once) and the heartbeat (periodic).
#[derive(Debug)]
pub struct SchedulerAdapter {
    /// The adapter was stopped.
    pub stopped: bool,
}

impl SchedulerAdapter {
    /// Assemble the adapter.
    pub fn new() -> (scheduler: Self)
        ensures
            !scheduler.stopped,
    {
        SchedulerAdapter { stopped: false }
    }

    /// Stop the adapter (idempotent).
    pub fn stop(&mut self)
        ensures
            final(self).stopped,
    {
        self.stopped = true;
    }

    /// Seconds from now until the current session's deadline (`None` = the session
    /// is dynamic, or there is none).
    pub fn deadline_delay_secs(state: &ScopeState, now_ms: i64) -> (delay: Option<u64>)
        ensures
            delay == delay_secs(state@, now_ms),
    {
        let session = match state.current_session() {
            Some(session) => session,
            None => return None,
        };
        let scheduled: u64 = match session.scheduled_duration_secs {
            Some(scheduled) => scheduled,
            None => return None,
        };
        let elapsed_ms: i128 = now_ms as i128 - session.started_at_ms as i128;
        let elapsed: u64 = if elapsed_ms <= 0 {
            0
        } else {
            ((elapsed_ms as u128) / 1000) as u64
        };
        proof {
            assert(state@.sessions.last() == session@);
        }
        Some(scheduled.saturating_sub(elapsed))
    }

    /// The next heartbeat, and the channel it goes out on.
    pub fn keepalive(state: &ScopeState, seq: &mut u64, now_ms: i64) -> (beat: (Channel, Envelope))
        ensures
            beats(state@, *old(seq), now_ms, beat, *final(seq)),
    {
        (
            Channel::Control,
            compose(
                state,
                seq,
                now_ms,
                EventType::ControlKeepalive,
                Payload::ControlKeepalive(ControlKeepaliveData {  }),
            ),
        )
    }
}

impl Default for SchedulerAdapter {
    fn default() -> (scheduler: Self)
        ensures
            !scheduler.stopped,
    {
        SchedulerAdapter::new()
    }
}

/// The deadline never comes later than the scheduled duration, comes at once when
/// it has passed, and comes nearer, never farther, as the clock advances.
pub proof fn law_deadlines_come_nearer(state: ScopeModel, early_ms: i64, late_ms: i64)
    requires
        early_ms <= late_ms,
        delay_secs(state, early_ms) is Some,
    ensures
        delay_secs(state, late_ms) is Some,
        delay_secs(state, late_ms)->0 <= delay_secs(state, early_ms)->0,
        delay_secs(state, early_ms)->0 <= state.sessions.last().scheduled_duration_secs->0,
        late_ms - state.sessions.last().started_at_ms >= 1000
            * state.sessions.last().scheduled_duration_secs->0 ==> delay_secs(state, late_ms)->0 == 0,
{
}

} // verus!
