//! `statistics`: session counters.

use vstd::prelude::*;

use crate::app::event::{AgentBusEvent, SandboxEvent};
use crate::domain::scope::{ScopeModel, ScopeState};
use crate::domain::study_id::StudyId;

verus! {

/// Live session counters.
#[derive(Debug)]
pub struct SessionStatistics {
    counts: StatisticsSnapshot,
}

/// Point-in-time counter snapshot.
#[derive(Debug, Clone, Copy, PartialEq, Eq, Structural)]
pub struct StatisticsSnapshot {
    /// Raw source telemetry events seen.
    pub source_events: u64,
    /// Screenshot frames received.
    pub screenshots: u64,
    /// Lifecycle events (deadline, persist ticks, stop).
    pub lifecycle_events: u64,
    /// Drops observed in the scope.
    pub drops_observed: u64,
    /// Processes that joined the scope.
    pub scope_entered: u64,
    /// Processes that left the scope.
    pub scope_exited: u64,
    /// Statistics ticks so far (with this one, when logged from a tick).
    pub ticks: u32,
}

/// Statistics plugin (pipeline and bus counter).
#[derive(Debug)]
pub struct StatisticsPlugin {
    /// The counters.
    pub stats: SessionStatistics,
}

/// The periodic summary.
#[derive(Debug, Clone, Copy, PartialEq, Eq, Structural)]
pub struct StatisticsReport {
    /// The study.
    pub study_id: StudyId,
    /// The session.
    pub session_id: u32,
    /// The counters.
    pub snapshot: StatisticsSnapshot,
}

/// One more, starting over after the largest count.
pub open spec fn one_more(count: u64) -> u64 {
    if count == u64::MAX {
        0
    } else {
        (count + 1) as u64
    }
}

/// One more tick, starting over after the largest count.
pub open spec fn one_more_tick(count: u32) -> u32 {
    if count == u32::MAX {
        0
    } else {
        (count + 1) as u32
    }
}

/// The counters after a pipeline event.
pub open spec fn counted(counts: StatisticsSnapshot, event: SandboxEvent) -> StatisticsSnapshot {
    match event {
        SandboxEvent::Source(_) => StatisticsSnapshot {
            source_events: one_more(counts.source_events),
            ..counts
        },
        SandboxEvent::ScreenshotReceived(_) => StatisticsSnapshot {
            screenshots: one_more(counts.screenshots),
            ..counts
        },
        SandboxEvent::StatsTick => StatisticsSnapshot { ticks: one_more_tick(counts.ticks), ..counts },
        SandboxEvent::PersistTick => StatisticsSnapshot {
            lifecycle_events: one_more(counts.lifecycle_events),
            ..counts
        },
        SandboxEvent::SessionDeadline => StatisticsSnapshot {
            lifecycle_events: one_more(counts.lifecycle_events),
            ..counts
        },
        SandboxEvent::ServiceStop => StatisticsSnapshot {
            lifecycle_events: one_more(counts.lifecycle_events),
            ..counts
        },
        SandboxEvent::InteractiveSessionReady => counts,
    }
}

/// The counters after a bus event.
pub open spec fn bus_counted(counts: StatisticsSnapshot, event: AgentBusEvent) -> StatisticsSnapshot {
    match event {
        AgentBusEvent::DropObserved { path, pid } => StatisticsSnapshot {
            drops_observed: one_more(counts.drops_observed),
            ..counts
        },
        AgentBusEvent::ProcessEnteredScope { pid, name } => StatisticsSnapshot {
            scope_entered: one_more(counts.scope_entered),
            ..counts
        },
        AgentBusEvent::ProcessExitedScope { pid, name } => StatisticsSnapshot {
            scope_exited: one_more(counts.scope_exited),
            ..counts
        },
        _ => counts,
    }
}

fn plus_one(count: u64) -> (more: u64)
    ensures
        more == one_more(count),
{
    if count == u64::MAX {
        0
    } else {
        count + 1
    }
}

impl View for SessionStatistics {
    type V = StatisticsSnapshot;

    closed spec fn view(&self) -> StatisticsSnapshot {
        self.counts
    }
}

impl SessionStatistics {
    /// Snapshot of all counters.
    pub fn snapshot(&self) -> (snapshot: StatisticsSnapshot)
        ensures
            snapshot == self@,
    {
        self.counts
    }
}

impl Default for StatisticsSnapshot {
    fn default() -> (snapshot: Self)
        ensures
            snapshot == zero_counts(),
    {
        StatisticsSnapshot {
            source_events: 0,
            screenshots: 0,
            lifecycle_events: 0,
            drops_observed: 0,
            scope_entered: 0,
            scope_exited: 0,
            ticks: 0,
        }
    }
}

/// No counts yet.
pub open spec fn zero_counts() -> StatisticsSnapshot {
    StatisticsSnapshot {
        source_events: 0,
        screenshots: 0,
        lifecycle_events: 0,
        drops_observed: 0,
        scope_entered: 0,
        scope_exited: 0,
        ticks: 0,
    }
}

impl Default for SessionStatistics {
    fn default() -> (stats: Self)
        ensures
            stats@ == zero_counts(),
    {
        SessionStatistics {
            counts: StatisticsSnapshot {
                source_events: 0,
                screenshots: 0,
                lifecycle_events: 0,
                drops_observed: 0,
                scope_entered: 0,
                scope_exited: 0,
                ticks: 0,
            },
        }
    }
}

/// The summary that an event calls for, of the counts after it.
pub open spec fn summary(
    state: ScopeModel,
    counts: StatisticsSnapshot,
    event: SandboxEvent,
) -> Option<StatisticsReport> {
    if event is StatsTick {
        Some(
            StatisticsReport {
                study_id: state.study_id,
                session_id: state.session_id(),
                snapshot: counts,
            },
        )
    } else {
        None
    }
}

impl StatisticsPlugin {
    /// Assemble the plugin over given counters.
    pub fn new(counters: SessionStatistics) -> (plugin: Self)
        ensures
            plugin.stats == counters,
    {
        StatisticsPlugin { stats: counters }
    }

    /// The counters.
    pub fn snapshot(&self) -> (snapshot: StatisticsSnapshot)
        ensures
            snapshot == self.stats@,
    {
        self.stats.snapshot()
    }

    /// Take in a bus event.
    pub fn on_bus(&mut self, event: &AgentBusEvent)
        ensures
            final(self).stats@ == bus_counted(old(self).stats@, *event),
    {
        match event {
            AgentBusEvent::DropObserved { path, pid } => {
                self.stats.counts.drops_observed = plus_one(self.stats.counts.drops_observed);
            },
            AgentBusEvent::ProcessEnteredScope { pid, name } => {
                self.stats.counts.scope_entered = plus_one(self.stats.counts.scope_entered);
            },
            AgentBusEvent::ProcessExitedScope { pid, name } => {
                self.stats.counts.scope_exited = plus_one(self.stats.counts.scope_exited);
            },
            _ => {},
        }
    }

    /// Take in a pipeline event; a tick yields the summary to log.
    pub fn pre(&mut self, state: &ScopeState, event: &SandboxEvent) -> (report: Option<StatisticsReport>)
        ensures
            final(self).stats@ == counted(old(self).stats@, *event),
            report == summary(state@, counted(old(self).stats@, *event), *event),
    {
        match event {
            SandboxEvent::Source(_) => {
                self.stats.counts.source_events = plus_one(self.stats.counts.source_events);
                None
            },
            SandboxEvent::ScreenshotReceived(_) => {
                self.stats.counts.screenshots = plus_one(self.stats.counts.screenshots);
                None
            },
            SandboxEvent::StatsTick => {
                let ticks: u32 = self.stats.counts.ticks;
                self.stats.counts.ticks = if ticks == u32::MAX {
                    0
                } else {
                    ticks + 1
                };
                Some(
                    StatisticsReport {
                        study_id: state.study_id,
                        session_id: state.session_id(),
                        snapshot: self.stats.counts,
                    },
                )
            },
            SandboxEvent::PersistTick => {
                self.stats.counts.lifecycle_events = plus_one(self.stats.counts.lifecycle_events);
                None
            },
            SandboxEvent::SessionDeadline => {
                self.stats.counts.lifecycle_events = plus_one(self.stats.counts.lifecycle_events);
                None
            },
            SandboxEvent::ServiceStop => {
                self.stats.counts.lifecycle_events = plus_one(self.stats.counts.lifecycle_events);
                None
            },
            SandboxEvent::InteractiveSessionReady => None,
        }
    }
}

} // verus!
