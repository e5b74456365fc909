//! What the scope tracker publishes over one, two or three events.

use vstd::prelude::*;

use crate::app::event::{AgentBusEvent, SandboxEvent, SourceEvent};
use crate::domain::drop_filter::{normal_extension, passes, RuleModel};
use crate::domain::image_name::path_extension;
use crate::domain::scope::{joins, live_record, with_exit, ScopeModel, TrackerModel};
use crate::domain::scope_laws::{
    law_a_drop_is_remembered, law_drops_are_reported_once, law_exit_ends_membership,
    law_exit_stamps_one_record, law_expectations_only_grow, law_joining_leaves_one_record, law_membership_is_inherited,
    law_scope_dies_with_its_last_process, law_what_a_drop_is, law_who_joins, lemma_first_live,
    lemma_live_is_found,
};
use crate::plugins::scope_tracker::{begins_tracking, heeds, seeds_target, sees};
use crate::plugins::target_launcher::detonates;
use crate::protocol::payload::{
    FileReleasedData, FileWrittenData, ProcessStartedData, ProcessStoppedData,
};
use crate::text::{lower_ascii, lowercase, opt_view};

verus! {

/// A process start as the tracker meets it.
pub open spec fn started(data: ProcessStartedData) -> SandboxEvent {
    SandboxEvent::Source(SourceEvent::ProcessStarted(data))
}

/// A process exit as the tracker meets it.
pub open spec fn stopped(data: ProcessStoppedData) -> SandboxEvent {
    SandboxEvent::Source(SourceEvent::ProcessStopped(data))
}

/// A write as the tracker meets it.
pub open spec fn written(data: FileWrittenData) -> SandboxEvent {
    SandboxEvent::Source(SourceEvent::FileWritten(data))
}

/// Is this the release of the file: its close, or its cleanup?
pub open spec fn releases(event: SandboxEvent, data: FileReleasedData) -> bool {
    ||| event == SandboxEvent::Source(SourceEvent::FileClosed(data))
    ||| event == SandboxEvent::Source(SourceEvent::FileCleanedUp(data))
}

/// A process whose name was announced, or whose parent has a live record
/// anywhere in the session, is announced by its own pid and name and gets a live
/// record that tells of it. Any other process leaves no trace. The launch of the
/// target is announced with it exactly where the names agree but for ASCII case.
pub proof fn law_a_start_is_tracked(
    tracker: TrackerModel,
    state: ScopeModel,
    target_name: Seq<char>,
    rules: Seq<RuleModel>,
    data: ProcessStartedData,
    now_ms: i64,
    tracker_after: TrackerModel,
    state_after: ScopeModel,
    events: Seq<AgentBusEvent>,
)
    requires
        sees(
            tracker,
            state,
            target_name,
            rules,
            started(data),
            now_ms,
            tracker_after,
            state_after,
            events,
        ),
    ensures
        ({
            let inherits = exists|i: int|
                0 <= i < state.sessions.last().processes.len() && {
                    let record = #[trigger] state.sessions.last().processes[i];
                    record.ended_at_ms is None && data.parent_pid == Some(record.pid)
                };
            let member = state.sessions.len() > 0 && (tracker.expected.contains(lowercase(data.name@))
                || inherits);
            if member {
                let record = state_after.sessions.last().processes.last();
                &&& events.len() > 0
                &&& events.last() == AgentBusEvent::ProcessEnteredScope {
                    pid: data.pid,
                    name: data.name,
                }
                &&& events.contains(AgentBusEvent::TargetLaunched { name: data.name }) <==> lower_ascii(
                    data.name@,
                ) == lower_ascii(target_name)
                &&& state_after.scoped(data.pid)
                &&& record.pid == data.pid
                &&& record.parent_pid == data.parent_pid
                &&& record.name == lowercase(data.name@)
                &&& record.image_path == opt_view(data.image_path)
                &&& record.command_line == opt_view(data.command_line)
                &&& record.started_at_ms == now_ms
                &&& record.ended_at_ms is None
            } else {
                events.len() == 0 && state_after == state
            }
        }),
        tracker_after == tracker,
{
    let name = lowercase(data.name@);
    law_who_joins(tracker, state, name, data.parent_pid);
    if joins(tracker, state, name, data.parent_pid) {
        law_joining_leaves_one_record(
            state,
            crate::domain::scope::joined_record(data, name, now_ms),
        );
        if lower_ascii(data.name@) == lower_ascii(target_name) {
            assert(events[0] == AgentBusEvent::TargetLaunched { name: data.name });
        }
        assert forall|i: int| 0 <= i < tracker.expected.len() && tracker.expected[i] == name implies
            tracker.expected.contains(name) by {
            assert(tracker.expected[i] == name);
        }
    }
}

/// The whole tree is followed: after a process entered the scope, its child
/// enters too, and then the child's child, whatever they are called.
pub proof fn law_the_tree_is_followed(
    tracker: TrackerModel,
    state: ScopeModel,
    target_name: Seq<char>,
    rules: Seq<RuleModel>,
    parent: ProcessStartedData,
    child: ProcessStartedData,
    grandchild: ProcessStartedData,
    now_ms: Seq<i64>,
    trackers: Seq<TrackerModel>,
    states: Seq<ScopeModel>,
    events: Seq<Seq<AgentBusEvent>>,
)
    requires
        sees(
            tracker,
            state,
            target_name,
            rules,
            started(parent),
            now_ms[0],
            trackers[0],
            states[0],
            events[0],
        ),
        sees(
            trackers[0],
            states[0],
            target_name,
            rules,
            started(child),
            now_ms[1],
            trackers[1],
            states[1],
            events[1],
        ),
        sees(
            trackers[1],
            states[1],
            target_name,
            rules,
            started(grandchild),
            now_ms[2],
            trackers[2],
            states[2],
            events[2],
        ),
        events[0].len() > 0,
        child.parent_pid == Some(parent.pid),
        grandchild.parent_pid == Some(child.pid),
    ensures
        events[0].last() == (AgentBusEvent::ProcessEnteredScope { pid: parent.pid, name: parent.name }),
        events[1].len() > 0,
        events[1].last() == (AgentBusEvent::ProcessEnteredScope { pid: child.pid, name: child.name }),
        events[2].len() > 0,
        events[2].last() == (AgentBusEvent::ProcessEnteredScope {
            pid: grandchild.pid,
            name: grandchild.name,
        }),
        states[2].scoped(grandchild.pid),
        grandchild.pid != child.pid ==> states[2].scoped(child.pid),
{
    let first = crate::domain::scope::joined_record(parent, lowercase(parent.name@), now_ms[0]);
    law_membership_is_inherited(tracker, state, first, lowercase(child.name@), parent.pid);
    let second = crate::domain::scope::joined_record(child, lowercase(child.name@), now_ms[1]);
    law_membership_is_inherited(tracker, states[0], second, lowercase(grandchild.name@), child.pid);
    let third = crate::domain::scope::joined_record(
        grandchild,
        lowercase(grandchild.name@),
        now_ms[2],
    );
    law_joining_leaves_one_record(states[0], second);
    law_joining_leaves_one_record(states[1], third);
    crate::domain::scope_laws::law_joining_keeps_the_others(states[1], third, child.pid);
}

/// The exit of any live member is announced by its own pid and name and ends its
/// membership; the death of the scope is announced exactly when nobody else is
/// left. The exit of anybody else leaves no trace.
pub proof fn law_an_exit_is_tracked(
    tracker: TrackerModel,
    state: ScopeModel,
    target_name: Seq<char>,
    rules: Seq<RuleModel>,
    data: ProcessStoppedData,
    now_ms: i64,
    tracker_after: TrackerModel,
    state_after: ScopeModel,
    events: Seq<AgentBusEvent>,
)
    requires
        state.pids_unique(),
        sees(
            tracker,
            state,
            target_name,
            rules,
            stopped(data),
            now_ms,
            tracker_after,
            state_after,
            events,
        ),
    ensures
        ({
            let live = state.sessions.len() > 0 && exists|i: int|
                0 <= i < state.sessions.last().processes.len() && live_record(
                    #[trigger] state.sessions.last().processes[i],
                    data.pid,
                );
            if live {
                &&& events.len() > 0
                &&& events[0] == AgentBusEvent::ProcessExitedScope { pid: data.pid, name: data.name }
                &&& events.contains(AgentBusEvent::ScopeDied) <==> forall|other: u32|
                    other != data.pid ==> !#[trigger] state.scoped(other)
                &&& !state_after.scoped(data.pid)
                &&& forall|other: u32|
                    other != data.pid ==> #[trigger] state_after.scoped(other) == state.scoped(other)
            } else {
                events.len() == 0 && state_after == state
            }
        }),
        tracker_after == tracker,
{
    if state.sessions.len() > 0 {
        let processes = state.sessions.last().processes;
        lemma_first_live(processes, data.pid);
        if exists|i: int| 0 <= i < processes.len() && live_record(#[trigger] processes[i], data.pid) {
            let i = choose|i: int|
                0 <= i < processes.len() && live_record(#[trigger] processes[i], data.pid);
            lemma_live_is_found(processes, data.pid, i);
            law_exit_stamps_one_record(state, i, now_ms);
            law_scope_dies_with_its_last_process(state, data.pid, now_ms);
            assert forall|other: u32| other != data.pid implies #[trigger] state_after.scoped(other)
                == state.scoped(other) by {
                law_exit_ends_membership(state, data.pid, other, now_ms);
            }
            law_exit_ends_membership(state, data.pid, data.pid, now_ms);
            if with_exit(state, data.pid, now_ms).dead() {
                assert(events[1] == AgentBusEvent::ScopeDied);
            }
        }
    }
}

/// A file's life as a drop: the first write of a live member to a file that the
/// filter passes is announced with the file's path and the writer's pid; its
/// first release after that, by close or by cleanup, is announced with the same
/// path; a second write and a second release are not announced.
pub proof fn law_a_drop_is_observed_and_closed_once(
    tracker: TrackerModel,
    state: ScopeModel,
    target_name: Seq<char>,
    rules: Seq<RuleModel>,
    at: int,
    data: FileWrittenData,
    again: FileWrittenData,
    release: FileReleasedData,
    releasing: Seq<SandboxEvent>,
    now_ms: i64,
    trackers: Seq<TrackerModel>,
    states: Seq<ScopeModel>,
    events: Seq<Seq<AgentBusEvent>>,
)
    requires
        state.sessions.len() > 0,
        0 <= at < state.sessions.last().processes.len(),
        live_record(state.sessions.last().processes[at], data.pid),
        data.file_name is Some,
        again.file_name is Some,
        release.file_name is Some,
        again.file_name->0@ == data.file_name->0@,
        release.file_name->0@ == data.file_name->0@,
        passes(rules, normal_extension(path_extension(data.file_name->0@))),
        !state.sessions.last().drops.contains(data.file_name->0@),
        !tracker.closed.contains(data.file_name->0@),
        releases(releasing[0], release),
        releases(releasing[1], release),
        sees(
            tracker,
            state,
            target_name,
            rules,
            written(data),
            now_ms,
            trackers[0],
            states[0],
            events[0],
        ),
        sees(
            trackers[0],
            states[0],
            target_name,
            rules,
            written(again),
            now_ms,
            trackers[1],
            states[1],
            events[1],
        ),
        sees(
            trackers[1],
            states[1],
            target_name,
            rules,
            releasing[0],
            now_ms,
            trackers[2],
            states[2],
            events[2],
        ),
        sees(
            trackers[2],
            states[2],
            target_name,
            rules,
            releasing[1],
            now_ms,
            trackers[3],
            states[3],
            events[3],
        ),
    ensures
        events[0].len() == 1,
        events[0][0] == (AgentBusEvent::DropObserved { path: data.file_name->0, pid: Some(data.pid) }),
        events[1].len() == 0,
        events[2].len() == 1,
        events[2][0] == (AgentBusEvent::DropClosed { path: release.file_name->0 }),
        events[3].len() == 0,
        states[0].sessions.last().drops == state.sessions.last().drops.insert(data.file_name->0@),
        states[0].sessions.last().processes == state.sessions.last().processes,
        states[3] == states[0],
{
    let path = data.file_name->0@;
    law_what_a_drop_is(state, data.pid, path, rules);
    law_drops_are_reported_once(tracker, state, again.pid, path, rules);
    law_a_drop_is_remembered(tracker, state, data.pid, path, path.push('x'), rules);
}

/// A write is announced only for a live member, a passing file and a path not
/// yet seen in the session, and a release only for a path seen as a drop and not
/// yet closed: otherwise neither leaves a trace.
pub proof fn law_other_file_events_leave_no_trace(
    tracker: TrackerModel,
    state: ScopeModel,
    target_name: Seq<char>,
    rules: Seq<RuleModel>,
    event: SandboxEvent,
    data: FileWrittenData,
    release: FileReleasedData,
    now_ms: i64,
    tracker_after: TrackerModel,
    state_after: ScopeModel,
    events: Seq<AgentBusEvent>,
)
    requires
        sees(
            tracker,
            state,
            target_name,
            rules,
            event,
            now_ms,
            tracker_after,
            state_after,
            events,
        ),
        ({
            ||| event == written(data) && {
                ||| data.file_name is None
                ||| state.sessions.len() == 0
                ||| state.sessions.last().drops.contains(data.file_name->0@)
                ||| !passes(rules, normal_extension(path_extension(data.file_name->0@)))
                ||| forall|i: int|
                    0 <= i < state.sessions.last().processes.len() ==> !live_record(
                        #[trigger] state.sessions.last().processes[i],
                        data.pid,
                    )
            }
            ||| releases(event, release) && {
                ||| release.file_name is None
                ||| state.sessions.len() == 0
                ||| !state.sessions.last().drops.contains(release.file_name->0@)
                ||| tracker.closed.contains(release.file_name->0@)
            }
        }),
    ensures
        events.len() == 0,
        state_after == state,
        tracker_after == tracker,
{
    if event == written(data) && data.file_name is Some {
        law_what_a_drop_is(state, data.pid, data.file_name->0@, rules);
    }
}

/// Starts, exits, writes and releases are all that the tracker goes by.
pub proof fn law_other_events_leave_no_trace(
    tracker: TrackerModel,
    state: ScopeModel,
    target_name: Seq<char>,
    rules: Seq<RuleModel>,
    event: SandboxEvent,
    now_ms: i64,
    tracker_after: TrackerModel,
    state_after: ScopeModel,
    events: Seq<AgentBusEvent>,
)
    requires
        sees(
            tracker,
            state,
            target_name,
            rules,
            event,
            now_ms,
            tracker_after,
            state_after,
            events,
        ),
        forall|data: ProcessStartedData| event != #[trigger] started(data),
        forall|data: ProcessStoppedData| event != #[trigger] stopped(data),
        forall|data: FileWrittenData| event != #[trigger] written(data),
        forall|data: FileReleasedData| !#[trigger] releases(event, data),
    ensures
        events.len() == 0,
        state_after == state,
        tracker_after == tracker,
{
    if let SandboxEvent::Source(source) = event {
        match source {
            SourceEvent::ProcessStarted(data) => {
                assert(event == started(data));
            },
            SourceEvent::ProcessStopped(data) => {
                assert(event == stopped(data));
            },
            SourceEvent::FileWritten(data) => {
                assert(event == written(data));
            },
            SourceEvent::FileClosed(data) => {
                assert(releases(event, data));
            },
            SourceEvent::FileCleanedUp(data) => {
                assert(releases(event, data));
            },
            _ => {},
        }
    }
}

/// The target is expected in exactly the sessions in which it is launched: the
/// first one, and with `every_session` each one.
pub proof fn law_the_target_is_expected_where_it_is_launched(session_count: nat, every_session: bool)
    requires
        session_count > 0,
    ensures
        seeds_target(session_count, every_session) == detonates(session_count, every_session),
        every_session ==> detonates(session_count, every_session),
        !every_session ==> (detonates(session_count, every_session) <==> session_count < 2),
{
}

/// An image that was announced joins when it starts, in any case and whoever its
/// parent is; other bus events announce nothing.
pub proof fn law_an_announced_image_joins(
    tracker: TrackerModel,
    event: AgentBusEvent,
    announced: TrackerModel,
    state: ScopeModel,
    target_name: Seq<char>,
    rules: Seq<RuleModel>,
    data: ProcessStartedData,
    now_ms: i64,
    tracker_after: TrackerModel,
    state_after: ScopeModel,
    events: Seq<AgentBusEvent>,
)
    requires
        heeds(tracker, event, announced),
        state.sessions.len() > 0,
        sees(
            announced,
            state,
            target_name,
            rules,
            started(data),
            now_ms,
            tracker_after,
            state_after,
            events,
        ),
    ensures
        event matches AgentBusEvent::ExtendScopeExpectation { name } && lowercase(data.name@)
            == lowercase(name@) && lowercase(name@).len() > 0 ==> events.len() > 0 && events.last()
            == (AgentBusEvent::ProcessEnteredScope { pid: data.pid, name: data.name }),
        !(event is ExtendScopeExpectation) ==> announced == tracker,
{
    if let AgentBusEvent::ExtendScopeExpectation { name } = event {
        law_expectations_only_grow(tracker, lowercase(name@), lowercase(name@));
    }
}

/// The target joins when it starts, in any case and whoever its parent is, in
/// every session in which it is to be launched; in the others it is not awaited.
pub proof fn law_the_target_joins_where_it_is_launched(
    tracker: TrackerModel,
    target_name: Seq<char>,
    every_session: bool,
    seeded: TrackerModel,
    state: ScopeModel,
    rules: Seq<RuleModel>,
    data: ProcessStartedData,
    now_ms: i64,
    tracker_after: TrackerModel,
    state_after: ScopeModel,
    events: Seq<AgentBusEvent>,
)
    requires
        state.sessions.len() > 0,
        begins_tracking(tracker, state.sessions.len(), target_name, every_session, seeded),
        lowercase(target_name).len() > 0,
        lowercase(data.name@) == lowercase(target_name),
        sees(
            seeded,
            state,
            target_name,
            rules,
            started(data),
            now_ms,
            tracker_after,
            state_after,
            events,
        ),
    ensures
        detonates(state.sessions.len(), every_session) ==> events.len() > 0 && events.last() == (
        AgentBusEvent::ProcessEnteredScope { pid: data.pid, name: data.name }),
        !detonates(state.sessions.len(), every_session) ==> seeded == tracker,
{
    law_expectations_only_grow(tracker, lowercase(target_name), lowercase(target_name));
}

} // verus!
