//! `scope-tracker`: process-tree membership and drop detection, published as
//! derived bus events.

use vstd::prelude::*;

use crate::app::event::{AgentBusEvent, SandboxEvent, SourceEvent};
use crate::domain::drop_filter::{DropFilter, RuleModel};
use crate::domain::scope::{
    closes_first, drops_first, expecting, joined_record, joins, with_drop, with_exit, with_process, ScopeModel,
    ScopeState, ScopeTracker, TrackerModel,
};
use crate::protocol::payload::{FileReleasedData, FileWrittenData, ProcessStartedData, ProcessStoppedData};
use crate::text::{eq_ignore_ascii_case, lower_ascii, lowercase};

verus! {

/// Membership + drop detection plugin. Owns the non-persisted tracking state.
#[derive(Debug)]
pub struct ScopeTrackerPlugin {
    tracker: ScopeTracker,
    filter: DropFilter,
    target_name: String,
    every_session: bool,
}

/// Is the target expected in this session: in session 0, or in every one?
pub open spec fn seeds_target(session_count: nat, every_session: bool) -> bool {
    session_count == 1 || every_session
}

/// What a `process.started` makes the tracker publish.
pub open spec fn start_events(
    tracker: TrackerModel,
    state: ScopeModel,
    target_name: Seq<char>,
    data: ProcessStartedData,
) -> Seq<AgentBusEvent> {
    if joins(tracker, state, lowercase(data.name@), data.parent_pid) {
        let entered = AgentBusEvent::ProcessEnteredScope { pid: data.pid, name: data.name };
        if lower_ascii(data.name@) == lower_ascii(target_name) {
            seq![AgentBusEvent::TargetLaunched { name: data.name }, entered]
        } else {
            seq![entered]
        }
    } else {
        Seq::empty()
    }
}

/// The database after a `process.started`.
pub open spec fn start_state(
    tracker: TrackerModel,
    state: ScopeModel,
    data: ProcessStartedData,
    now_ms: i64,
) -> ScopeModel {
    if joins(tracker, state, lowercase(data.name@), data.parent_pid) {
        with_process(state, joined_record(data, lowercase(data.name@), now_ms))
    } else {
        state
    }
}

/// What a `process.stopped` makes the tracker publish.
pub open spec fn stop_events(
    state: ScopeModel,
    data: ProcessStoppedData,
    now_ms: i64,
) -> Seq<AgentBusEvent> {
    if state.scoped(data.pid) {
        let exited = AgentBusEvent::ProcessExitedScope { pid: data.pid, name: data.name };
        if with_exit(state, data.pid, now_ms).dead() {
            seq![exited, AgentBusEvent::ScopeDied]
        } else {
            seq![exited]
        }
    } else {
        Seq::empty()
    }
}

/// The database after a `process.stopped`.
pub open spec fn stop_state(state: ScopeModel, data: ProcessStoppedData, now_ms: i64) -> ScopeModel {
    if state.scoped(data.pid) {
        with_exit(state, data.pid, now_ms)
    } else {
        state
    }
}

/// Is this write the first sighting of a drop?
pub open spec fn sights_drop(state: ScopeModel, data: FileWrittenData, rules: Seq<RuleModel>) -> bool {
    data.file_name is Some && drops_first(state, data.pid, data.file_name->0@, rules)
}

/// What a `file.written` makes the tracker publish.
pub open spec fn write_events(
    state: ScopeModel,
    data: FileWrittenData,
    rules: Seq<RuleModel>,
) -> Seq<AgentBusEvent> {
    if sights_drop(state, data, rules) {
        seq![AgentBusEvent::DropObserved { path: data.file_name->0, pid: Some(data.pid) }]
    } else {
        Seq::empty()
    }
}

/// The database after a `file.written`.
pub open spec fn write_state(
    state: ScopeModel,
    data: FileWrittenData,
    rules: Seq<RuleModel>,
) -> ScopeModel {
    if sights_drop(state, data, rules) {
        with_drop(state, data.file_name->0@)
    } else {
        state
    }
}

/// Is this release the first close of a drop?
pub open spec fn closes_drop(tracker: TrackerModel, state: ScopeModel, data: FileReleasedData) -> bool {
    data.file_name is Some && closes_first(tracker, state, data.file_name->0@)
}

/// What a `file.closed` or `file.cleaned_up` makes the tracker publish.
pub open spec fn release_events(
    tracker: TrackerModel,
    state: ScopeModel,
    data: FileReleasedData,
) -> Seq<AgentBusEvent> {
    if closes_drop(tracker, state, data) {
        seq![AgentBusEvent::DropClosed { path: data.file_name->0 }]
    } else {
        Seq::empty()
    }
}

/// The tracker after a `file.closed` or `file.cleaned_up`.
pub open spec fn release_tracker(
    tracker: TrackerModel,
    state: ScopeModel,
    data: FileReleasedData,
) -> TrackerModel {
    if closes_drop(tracker, state, data) {
        TrackerModel { closed: tracker.closed.insert(data.file_name->0@), ..tracker }
    } else {
        tracker
    }
}

/// What the tracker makes of one event: its memory and the database after it,
/// and what it publishes.
pub open spec fn sees(
    tracker: TrackerModel,
    state: ScopeModel,
    target_name: Seq<char>,
    rules: Seq<RuleModel>,
    event: SandboxEvent,
    now_ms: i64,
    tracker_after: TrackerModel,
    state_after: ScopeModel,
    events: Seq<AgentBusEvent>,
) -> bool {
    match event {
        SandboxEvent::Source(SourceEvent::ProcessStarted(data)) => {
            &&& events == start_events(tracker, state, target_name, data)
            &&& state_after == start_state(tracker, state, data, now_ms)
            &&& tracker_after == tracker
        },
        SandboxEvent::Source(SourceEvent::ProcessStopped(data)) => {
            &&& events == stop_events(state, data, now_ms)
            &&& state_after == stop_state(state, data, now_ms)
            &&& tracker_after == tracker
        },
        SandboxEvent::Source(SourceEvent::FileWritten(data)) => {
            &&& events == write_events(state, data, rules)
            &&& state_after == write_state(state, data, rules)
            &&& tracker_after == tracker
        },
        SandboxEvent::Source(SourceEvent::FileClosed(data)) => {
            &&& events == release_events(tracker, state, data)
            &&& state_after == state
            &&& tracker_after == release_tracker(tracker, state, data)
        },
        SandboxEvent::Source(SourceEvent::FileCleanedUp(data)) => {
            &&& events == release_events(tracker, state, data)
            &&& state_after == state
            &&& tracker_after == release_tracker(tracker, state, data)
        },
        _ => {
            &&& events.len() == 0
            &&& state_after == state
            &&& tracker_after == tracker
        },
    }
}

/// What the tracker remembers once the session starts.
pub open spec fn begins_tracking(
    tracker: TrackerModel,
    session_count: nat,
    target_name: Seq<char>,
    every_session: bool,
    after: TrackerModel,
) -> bool {
    after == if seeds_target(session_count, every_session) {
        expecting(tracker, lowercase(target_name))
    } else {
        tracker
    }
}

/// What the tracker remembers after a bus event.
pub open spec fn heeds(tracker: TrackerModel, event: AgentBusEvent, after: TrackerModel) -> bool {
    after == match event {
        AgentBusEvent::ExtendScopeExpectation { name } => expecting(tracker, lowercase(name@)),
        _ => tracker,
    }
}

impl ScopeTrackerPlugin {
    /// What the tracker remembers.
    pub closed spec fn memory(&self) -> TrackerModel {
        self.tracker@
    }

    /// The rules of its drop filter.
    pub closed spec fn rules(&self) -> Seq<RuleModel> {
        self.filter@
    }

    /// The target's image name.
    pub closed spec fn target(&self) -> Seq<char> {
        self.target_name@
    }

    /// Is the target expected in every session?
    pub closed spec fn seeds_always(&self) -> bool {
        self.every_session
    }

    /// The tracking state is proper.
    pub closed spec fn wf(&self) -> bool {
        self.tracker.wf()
    }

    /// Nothing but the tracker's memory may change.
    pub open spec fn same_setup(&self, other: &Self) -> bool {
        self.rules() == other.rules() && self.target() == other.target() && self.seeds_always()
            == other.seeds_always()
    }

    /// Assemble the plugin.
    pub fn new(target_name: String, every_session: bool, filter: DropFilter) -> (plugin: Self)
        ensures
            plugin.wf(),
            plugin.memory() == (TrackerModel { expected: Seq::empty(), closed: Set::empty() }),
            plugin.rules() == filter@,
            plugin.target() == target_name@,
            plugin.seeds_always() == every_session,
    {
        ScopeTrackerPlugin { tracker: ScopeTracker::new(Vec::new()), filter, target_name, every_session }
    }

    /// The start hook: the target seeds the scope in session 0, or in every
    /// session. Runs after the session was opened.
    pub fn start(&mut self, state: &ScopeState)
        requires
            old(self).wf(),
        ensures
            final(self).wf(),
            final(self).same_setup(old(self)),
            begins_tracking(
                old(self).memory(),
                state@.sessions.len(),
                old(self).target(),
                old(self).seeds_always(),
                final(self).memory(),
            ),
    {
        if state.sessions.len() == 1 || self.every_session {
            self.tracker.expect(self.target_name.as_str());
        }
    }

    /// Take in a bus event: the launcher says which image to expect next.
    pub fn on_bus(&mut self, event: &AgentBusEvent)
        requires
            old(self).wf(),
        ensures
            final(self).wf(),
            final(self).same_setup(old(self)),
            heeds(old(self).memory(), *event, final(self).memory()),
    {
        match event {
            AgentBusEvent::ExtendScopeExpectation { name } => self.tracker.expect(name.as_str()),
            _ => {},
        }
    }

    /// Take in a pipeline event; returns what to publish on the bus, in order.
    pub fn pre(&mut self, state: &mut ScopeState, event: &SandboxEvent, now_ms: i64) -> (events: Vec<
        AgentBusEvent,
    >)
        requires
            old(self).wf(),
            old(state).wf(),
        ensures
            final(self).wf(),
            final(state).wf(),
            final(self).same_setup(old(self)),
            sees(
                old(self).memory(),
                old(state)@,
                old(self).target(),
                old(self).rules(),
                *event,
                now_ms,
                final(self).memory(),
                final(state)@,
                events@,
            ),
    {
        let ghost memory = self.memory();
        let ghost before = state@;
        let mut events: Vec<AgentBusEvent> = Vec::new();
        match event {
            SandboxEvent::Source(SourceEvent::ProcessStarted(data)) => {
                if self.tracker.process_entered(state, data, now_ms) {
                    if eq_ignore_ascii_case(data.name.as_str(), self.target_name.as_str()) {
                        events.push(AgentBusEvent::TargetLaunched { name: data.name.clone() });
                    }
                    events.push(
                        AgentBusEvent::ProcessEnteredScope { pid: data.pid, name: data.name.clone() },
                    );
                }
                assert(events@ =~= start_events(memory, before, self.target(), *data));
            },
            SandboxEvent::Source(SourceEvent::ProcessStopped(data)) => {
                let was_scoped = self.tracker.process_exited(state, data, now_ms);
                let dead = ScopeTracker::scope_dead(state);
                if was_scoped {
                    events.push(
                        AgentBusEvent::ProcessExitedScope { pid: data.pid, name: data.name.clone() },
                    );
                    if dead {
                        events.push(AgentBusEvent::ScopeDied);
                    }
                }
                assert(events@ =~= stop_events(before, *data, now_ms));
            },
            SandboxEvent::Source(SourceEvent::FileWritten(data)) => {
                if let Some(path) = self.tracker.drop_observed(state, data, &self.filter) {
                    events.push(AgentBusEvent::DropObserved { path, pid: Some(data.pid) });
                }
                assert(events@ =~= write_events(before, *data, self.rules()));
            },
            SandboxEvent::Source(SourceEvent::FileClosed(data)) => {
                if let Some(path) = self.tracker.drop_closed(state, data) {
                    events.push(AgentBusEvent::DropClosed { path });
                }
                assert(events@ =~= release_events(memory, before, *data));
            },
            SandboxEvent::Source(SourceEvent::FileCleanedUp(data)) => {
                if let Some(path) = self.tracker.drop_closed(state, data) {
                    events.push(AgentBusEvent::DropClosed { path });
                }
                assert(events@ =~= release_events(memory, before, *data));
            },
            _ => {},
        }
        events
    }
}

/// The target is announced only with its entry into the scope, and before it.
pub proof fn law_target_launch_comes_with_entry(
    tracker: TrackerModel,
    state: ScopeModel,
    target_name: Seq<char>,
    data: ProcessStartedData,
)
    ensures
        ({
            let events = start_events(tracker, state, target_name, data);
            &&& forall|i: int|
                0 <= i < events.len() && (#[trigger] events[i]) is TargetLaunched ==> i + 1 < events.len()
                    && events[i + 1] is ProcessEnteredScope
            &&& events.len() > 0 ==> events.last() is ProcessEnteredScope
        }),
{
}

/// The death of the scope is announced only when it has died, right after the
/// exit that killed it; a process that was never in the scope announces nothing.
pub proof fn law_scope_death_follows_an_exit(state: ScopeModel, data: ProcessStoppedData, now_ms: i64)
    ensures
        ({
            let events = stop_events(state, data, now_ms);
            &&& events.contains(AgentBusEvent::ScopeDied) <==> state.scoped(data.pid) && stop_state(
                state,
                data,
                now_ms,
            ).dead()
            &&& !state.scoped(data.pid) ==> events.len() == 0
            &&& events.len() > 0 ==> events[0] is ProcessExitedScope
        }),
{
    let events = stop_events(state, data, now_ms);
    if state.scoped(data.pid) && stop_state(state, data, now_ms).dead() {
        assert(events[1] == AgentBusEvent::ScopeDied);
    }
}

/// An expectation that was published before a process starts is met by it: the
/// process joins the scope whoever its parent is.
pub proof fn law_expected_image_joins(
    tracker: TrackerModel,
    state: ScopeModel,
    name: Seq<char>,
    parent_pid: Option<u32>,
)
    requires
        state.sessions.len() > 0,
        name.len() > 0,
    ensures
        joins(expecting(tracker, name), state, name, parent_pid),
{
    crate::domain::scope_laws::law_expectations_only_grow(tracker, name, name);
}

} // verus!
