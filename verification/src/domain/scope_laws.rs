//! What holds of the scope across operations.

use vstd::prelude::*;

use crate::domain::drop_filter::{normal_extension, passes, RuleModel};
use crate::domain::image_name::path_extension;
use crate::domain::scope::{
    boot_id, closes_first, drops_first, expecting, first_live, joins, live_record, opened, unique_pids,
    with_drop, with_exit, with_process, without_pid, ProcessModel, ScopeModel, SessionModel,
    TrackerModel,
};

verus! {

/// The first live record is one, and none comes before it.
pub proof fn lemma_first_live(processes: Seq<ProcessModel>, pid: u32)
    ensures
        -1 <= first_live(processes, pid) < processes.len(),
        first_live(processes, pid) >= 0 ==> live_record(processes[first_live(processes, pid)], pid),
        forall|i: int|
            0 <= i < processes.len() && (first_live(processes, pid) < 0 || i < first_live(processes, pid))
                ==> !live_record(#[trigger] processes[i], pid),
    decreases processes.len(),
{
    if processes.len() > 0 {
        lemma_first_live(processes.drop_last(), pid);
        assert forall|i: int|
            0 <= i < processes.len() && (first_live(processes, pid) < 0 || i < first_live(processes, pid))
                implies !live_record(#[trigger] processes[i], pid) by {
            if i < processes.len() - 1 {
                assert(processes.drop_last()[i] == processes[i]);
            }
        }
    }
}

/// A live record anywhere means that there is a first one.
pub proof fn lemma_live_is_found(processes: Seq<ProcessModel>, pid: u32, at: int)
    requires
        0 <= at < processes.len(),
        live_record(processes[at], pid),
    ensures
        first_live(processes, pid) >= 0,
{
    lemma_first_live(processes, pid);
}

/// The other records hold no record of the pid, and are a selection.
pub proof fn lemma_without_pid(processes: Seq<ProcessModel>, pid: u32)
    ensures
        forall|i: int|
            0 <= i < without_pid(processes, pid).len() ==> {
                &&& (#[trigger] without_pid(processes, pid)[i]).pid != pid
                &&& processes.contains(without_pid(processes, pid)[i])
            },
        unique_pids(processes) ==> unique_pids(without_pid(processes, pid)),
    decreases processes.len(),
{
    if processes.len() > 0 {
        let front = processes.drop_last();
        let rest = without_pid(front, pid);
        lemma_without_pid(front, pid);
        assert forall|i: int| 0 <= i < without_pid(processes, pid).len() implies {
            &&& (#[trigger] without_pid(processes, pid)[i]).pid != pid
            &&& processes.contains(without_pid(processes, pid)[i])
        } by {
            if i < rest.len() {
                let record = rest[i];
                assert(front.contains(record));
                let at = choose|at: int| 0 <= at < front.len() && front[at] == record;
                assert(processes[at] == record);
            } else {
                assert(processes[processes.len() - 1] == processes.last());
            }
        }
        if unique_pids(processes) {
            assert(unique_pids(front)) by {
                assert forall|i: int, j: int| 0 <= i < j < front.len() implies (#[trigger] front[i]).pid != (
                #[trigger] front[j]).pid by {
                    assert(front[i] == processes[i] && front[j] == processes[j]);
                }
            }
            assert forall|i: int, j: int|
                0 <= i < j < without_pid(processes, pid).len() implies (#[trigger] without_pid(
                processes,
                pid,
            )[i]).pid != (#[trigger] without_pid(processes, pid)[j]).pid by {
                if j == rest.len() {
                    let record = rest[i];
                    assert(front.contains(record));
                    let at = choose|at: int| 0 <= at < front.len() && front[at] == record;
                    assert(processes[at].pid != processes[processes.len() - 1].pid);
                }
            }
        }
    }
}

/// An empty session is not dead, and neither is a database without sessions:
/// the target may not have launched yet.
pub proof fn law_empty_session_is_not_dead(state: ScopeModel)
    requires
        state.sessions.len() == 0 || state.sessions.last().processes.len() == 0,
    ensures
        !state.dead(),
{
}

/// Opening a session keeps ids equal to boot indices.
pub proof fn law_opening_keeps_ids_consecutive(
    state: ScopeModel,
    now_ms: i64,
    scheduled_duration_secs: Option<u64>,
)
    requires
        state.numbered(),
    ensures
        opened(state, now_ms, scheduled_duration_secs).numbered(),
        opened(state, now_ms, scheduled_duration_secs).session_id() == boot_id(state.sessions.len()),
        !opened(state, now_ms, scheduled_duration_secs).dead(),
{
}

/// Whatever the pid's history, joining leaves exactly one record of it, the new
/// one, and it is live.
pub proof fn law_joining_leaves_one_record(state: ScopeModel, process: ProcessModel)
    requires
        state.sessions.len() > 0,
        process.ended_at_ms is None,
    ensures
        with_process(state, process).scoped(process.pid),
        ({
            let processes = with_process(state, process).sessions.last().processes;
            &&& processes.len() > 0
            &&& processes.last() == process
            &&& forall|i: int|
                0 <= i < processes.len() - 1 ==> (#[trigger] processes[i]).pid != process.pid
        }),
{
    lemma_without_pid(state.sessions.last().processes, process.pid);
    let processes = with_process(state, process).sessions.last().processes;
    assert(live_record(processes[processes.len() - 1], process.pid));
    lemma_live_is_found(processes, process.pid, processes.len() - 1);
}

/// Joining, exiting, sighting a drop and opening a session all keep pids unique
/// within each session, and none of them touches an earlier session.
pub proof fn law_operations_keep_pids_unique(
    state: ScopeModel,
    process: ProcessModel,
    pid: u32,
    path: Seq<char>,
    now_ms: i64,
    scheduled_duration_secs: Option<u64>,
)
    requires
        state.pids_unique(),
    ensures
        opened(state, now_ms, scheduled_duration_secs).pids_unique(),
        state.sessions.len() > 0 ==> with_process(state, process).pids_unique(),
        state.sessions.len() > 0 ==> with_drop(state, path).pids_unique(),
        state.scoped(pid) ==> with_exit(state, pid, now_ms).pids_unique(),
        opened(state, now_ms, scheduled_duration_secs).sessions.drop_last() == state.sessions,
        with_process(state, process).sessions.drop_last() == state.sessions.drop_last(),
        with_drop(state, path).sessions.drop_last() == state.sessions.drop_last(),
        with_exit(state, pid, now_ms).sessions.drop_last() == state.sessions.drop_last(),
{
    assert(opened(state, now_ms, scheduled_duration_secs).sessions.drop_last() =~= state.sessions);
    assert(with_process(state, process).sessions.drop_last() =~= state.sessions.drop_last());
    assert(with_drop(state, path).sessions.drop_last() =~= state.sessions.drop_last());
    assert(with_exit(state, pid, now_ms).sessions.drop_last() =~= state.sessions.drop_last());
    if state.sessions.len() > 0 {
        let session = state.sessions.last();
        assert(unique_pids(session.processes));
        lemma_without_pid(session.processes, process.pid);
        lemma_first_live(session.processes, pid);
        let grown = without_pid(session.processes, process.pid).push(process);
        assert(unique_pids(grown));
        assert forall|i: int| 0 <= i < state.sessions.len() implies unique_pids(
            (#[trigger] with_process(state, process).sessions[i]).processes,
        ) by {
            if i < state.sessions.len() - 1 {
                assert(with_process(state, process).sessions[i] == state.sessions[i]);
            }
        }
        assert forall|i: int| 0 <= i < state.sessions.len() implies unique_pids(
            (#[trigger] with_drop(state, path).sessions[i]).processes,
        ) by {
            if i < state.sessions.len() - 1 {
                assert(with_drop(state, path).sessions[i] == state.sessions[i]);
            }
        }
        if state.scoped(pid) {
            let at = first_live(session.processes, pid);
            let after = with_exit(state, pid, now_ms).sessions.last().processes;
            assert forall|i: int, j: int| 0 <= i < j < after.len() implies (#[trigger] after[i]).pid != (
            #[trigger] after[j]).pid by {
                assert(after[i].pid == session.processes[i].pid);
                assert(after[j].pid == session.processes[j].pid);
            }
            assert forall|i: int| 0 <= i < state.sessions.len() implies unique_pids(
                (#[trigger] with_exit(state, pid, now_ms).sessions[i]).processes,
            ) by {
                if i < state.sessions.len() - 1 {
                    assert(with_exit(state, pid, now_ms).sessions[i] == state.sessions[i]);
                }
            }
        }
    }
}

/// A pid whose records all ended neither passes the scope on to a child nor
/// makes its writes drops.
pub proof fn law_dead_records_neither_inherit_nor_attribute(
    tracker: TrackerModel,
    state: ScopeModel,
    pid: u32,
    child: Seq<char>,
    path: Seq<char>,
    rules: Seq<RuleModel>,
)
    requires
        state.sessions.len() > 0 ==> forall|i: int|
            0 <= i < state.sessions.last().processes.len() && (
            #[trigger] state.sessions.last().processes[i]).pid == pid
                ==> state.sessions.last().processes[i].ended_at_ms is Some,
    ensures
        !state.scoped(pid),
        !tracker.expected.contains(child) ==> !joins(tracker, state, child, Some(pid)),
        !drops_first(state, pid, path, rules),
{
    if state.sessions.len() > 0 {
        lemma_first_live(state.sessions.last().processes, pid);
    }
}

/// After its exit a process is out of the scope, and no other process's
/// membership changes.
pub proof fn law_exit_ends_membership(state: ScopeModel, pid: u32, other: u32, now_ms: i64)
    requires
        state.pids_unique(),
        state.scoped(pid),
    ensures
        !with_exit(state, pid, now_ms).scoped(pid),
        other != pid ==> with_exit(state, pid, now_ms).scoped(other) == state.scoped(other),
{
    let before = state.sessions.last().processes;
    let after = with_exit(state, pid, now_ms).sessions.last().processes;
    let at = first_live(before, pid);
    assert(unique_pids(before));
    lemma_first_live(before, pid);
    lemma_first_live(after, pid);
    lemma_first_live(before, other);
    lemma_first_live(after, other);
    if first_live(after, pid) >= 0 {
        let still = first_live(after, pid);
        assert(before[still].pid == pid);
        assert(still == at);
    }
    if other != pid {
        if first_live(before, other) >= 0 {
            let place = first_live(before, other);
            assert(after[place] == before[place]);
            lemma_live_is_found(after, other, place);
        }
        if first_live(after, other) >= 0 {
            let place = first_live(after, other);
            assert(after[place] == before[place]);
            lemma_live_is_found(before, other, place);
        }
    }
}

/// The scope dies with its last live process: after an exit it is dead exactly
/// when nobody else is alive.
pub proof fn law_scope_dies_with_its_last_process(state: ScopeModel, pid: u32, now_ms: i64)
    requires
        state.pids_unique(),
        state.scoped(pid),
    ensures
        with_exit(state, pid, now_ms).dead() == forall|other: u32|
            other != pid ==> !#[trigger] state.scoped(other),
{
    let before = state.sessions.last().processes;
    let after = with_exit(state, pid, now_ms).sessions.last().processes;
    let at = first_live(before, pid);
    lemma_first_live(before, pid);
    if with_exit(state, pid, now_ms).dead() {
        assert forall|other: u32| other != pid implies !#[trigger] state.scoped(other) by {
            lemma_first_live(before, other);
            if first_live(before, other) >= 0 {
                let place = first_live(before, other);
                assert(after[place] == before[place]);
                assert(after[place].ended_at_ms is Some);
            }
        }
    }
    if forall|other: u32| other != pid ==> !#[trigger] state.scoped(other) {
        assert(unique_pids(before));
        assert forall|i: int| 0 <= i < after.len() implies (#[trigger] after[i]).ended_at_ms is Some by {
            if i != at {
                assert(after[i] == before[i]);
                assert(before[i].pid != before[at].pid);
                let other = before[i].pid;
                assert(!state.scoped(other));
                if before[i].ended_at_ms is None {
                    lemma_live_is_found(before, other, i);
                }
            }
        }
    }
}

/// A drop is reported once per session, and its close once.
pub proof fn law_drops_are_reported_once(
    tracker: TrackerModel,
    state: ScopeModel,
    pid: u32,
    path: Seq<char>,
    rules: Seq<RuleModel>,
)
    requires
        state.sessions.len() > 0,
    ensures
        !drops_first(with_drop(state, path), pid, path, rules),
        !closes_first(TrackerModel { closed: tracker.closed.insert(path), ..tracker }, state, path),
{
}

/// The close of a file that was never observed as a drop is never reported.
pub proof fn law_only_observed_drops_close(tracker: TrackerModel, state: ScopeModel, path: Seq<char>)
    requires
        state.sessions.len() == 0 || !state.sessions.last().drops.contains(path),
    ensures
        !closes_first(tracker, state, path),
{
}

/// An expectation is never lost, is met by the expected name, and the empty name
/// is never expected.
pub proof fn law_expectations_only_grow(tracker: TrackerModel, name: Seq<char>, other: Seq<char>)
    ensures
        tracker.expected.contains(other) ==> expecting(tracker, name).expected.contains(other),
        name.len() > 0 ==> expecting(tracker, name).expected.contains(name),
        expecting(tracker, Seq::empty()) == tracker,
{
    if name.len() > 0 && !tracker.expected.contains(name) {
        let grown = expecting(tracker, name).expected;
        assert(grown[grown.len() - 1] == name);
        if tracker.expected.contains(other) {
            let at = choose|at: int| 0 <= at < tracker.expected.len() && tracker.expected[at] == other;
            assert(grown[at] == other);
        }
    }
}

/// Every live member passes the scope on, wherever in the session's history its
/// record stands: the target's child, the child's child, and so on.
pub proof fn law_every_live_member_passes_the_scope_on(
    tracker: TrackerModel,
    state: ScopeModel,
    at: int,
    name: Seq<char>,
)
    requires
        state.sessions.len() > 0,
        0 <= at < state.sessions.last().processes.len(),
        state.sessions.last().processes[at].ended_at_ms is None,
    ensures
        joins(tracker, state, name, Some(state.sessions.last().processes[at].pid)),
{
    let processes = state.sessions.last().processes;
    lemma_live_is_found(processes, processes[at].pid, at);
}

/// A process joins exactly when a session is open and either its name was
/// announced or some live record of the session is its parent's.
pub proof fn law_who_joins(
    tracker: TrackerModel,
    state: ScopeModel,
    name: Seq<char>,
    parent_pid: Option<u32>,
)
    ensures
        joins(tracker, state, name, parent_pid) <==> {
            &&& state.sessions.len() > 0
            &&& {
                ||| exists|i: int| 0 <= i < tracker.expected.len() && #[trigger] tracker.expected[i] == name
                ||| exists|i: int|
                    0 <= i < state.sessions.last().processes.len() && {
                        let record = #[trigger] state.sessions.last().processes[i];
                        record.ended_at_ms is None && parent_pid == Some(record.pid)
                    }
            }
        },
{
    if state.sessions.len() > 0 && parent_pid is Some {
        let processes = state.sessions.last().processes;
        lemma_first_live(processes, parent_pid->0);
        if first_live(processes, parent_pid->0) >= 0 {
            let record = processes[first_live(processes, parent_pid->0)];
            assert(record.ended_at_ms is None && parent_pid == Some(record.pid));
        }
        if exists|i: int|
            0 <= i < processes.len() && {
                let record = #[trigger] processes[i];
                record.ended_at_ms is None && parent_pid == Some(record.pid)
            } {
            let i = choose|i: int|
                0 <= i < processes.len() && {
                    let record = #[trigger] processes[i];
                    record.ended_at_ms is None && parent_pid == Some(record.pid)
                };
            lemma_live_is_found(processes, parent_pid->0, i);
        }
    }
}

/// Membership is inherited over any number of generations: the child of a
/// process that has just joined joins, whatever either is called, and so does
/// the child of any earlier member.
pub proof fn law_membership_is_inherited(
    tracker: TrackerModel,
    state: ScopeModel,
    process: ProcessModel,
    child: Seq<char>,
    other: u32,
)
    requires
        state.sessions.len() > 0,
        process.ended_at_ms is None,
    ensures
        joins(tracker, with_process(state, process), child, Some(process.pid)),
        joins(tracker, state, child, Some(other)) ==> joins(
            tracker,
            with_process(state, process),
            child,
            Some(other),
        ),
{
    law_joining_leaves_one_record(state, process);
    law_joining_keeps_the_others(state, process, other);
}

/// The records of other pids, in their order, are all that stays.
pub proof fn lemma_others_stay(processes: Seq<ProcessModel>, pid: u32, at: int)
    requires
        0 <= at < processes.len(),
        processes[at].pid != pid,
    ensures
        without_pid(processes, pid).contains(processes[at]),
    decreases processes.len(),
{
    let front = processes.drop_last();
    if at < front.len() {
        lemma_others_stay(front, pid, at);
        let rest = without_pid(front, pid);
        let place = choose|place: int| 0 <= place < rest.len() && rest[place] == processes[at];
        assert(without_pid(processes, pid)[place] == processes[at]);
    } else {
        let kept = without_pid(processes, pid);
        assert(kept[kept.len() - 1] == processes[at]);
    }
}

/// Where nothing of the pid is listed, nothing goes.
pub proof fn lemma_nothing_to_leave_out(processes: Seq<ProcessModel>, pid: u32)
    requires
        forall|i: int| 0 <= i < processes.len() ==> (#[trigger] processes[i]).pid != pid,
    ensures
        without_pid(processes, pid) == processes,
    decreases processes.len(),
{
    if processes.len() > 0 {
        let front = processes.drop_last();
        assert forall|i: int| 0 <= i < front.len() implies (#[trigger] front[i]).pid != pid by {
            assert(front[i] == processes[i]);
        }
        lemma_nothing_to_leave_out(front, pid);
        assert(processes[processes.len() - 1].pid != pid);
        assert(without_pid(processes, pid) =~= processes);
    }
}

/// A process that joins leaves every other process's membership and record, the
/// session's drops and its dates as they were. A pid not seen before adds one
/// record behind the others.
pub proof fn law_joining_keeps_the_others(state: ScopeModel, process: ProcessModel, other: u32)
    requires
        state.sessions.len() > 0,
    ensures
        other != process.pid ==> with_process(state, process).scoped(other) == state.scoped(other),
        ({
            let before = state.sessions.last();
            let after = with_process(state, process).sessions.last();
            &&& after == SessionModel { processes: after.processes, ..before }
            &&& forall|i: int|
                0 <= i < before.processes.len() && (#[trigger] before.processes[i]).pid != process.pid
                    ==> after.processes.contains(before.processes[i])
            &&& (forall|i: int|
                0 <= i < before.processes.len() ==> (#[trigger] before.processes[i]).pid != process.pid)
                ==> after.processes == before.processes.push(process)
        }),
        with_process(state, process).study_id == state.study_id,
        with_process(state, process).sessions.len() == state.sessions.len(),
{
    let before = state.sessions.last().processes;
    let after = with_process(state, process).sessions.last().processes;
    let kept = without_pid(before, process.pid);
    lemma_without_pid(before, process.pid);
    assert forall|i: int|
        0 <= i < before.len() && (#[trigger] before[i]).pid != process.pid implies after.contains(
        before[i],
    ) by {
        lemma_others_stay(before, process.pid, i);
        let place = choose|place: int| 0 <= place < kept.len() && kept[place] == before[i];
        assert(after[place] == before[i]);
    }
    if forall|i: int| 0 <= i < before.len() ==> (#[trigger] before[i]).pid != process.pid {
        lemma_nothing_to_leave_out(before, process.pid);
    }
    if other != process.pid {
        lemma_first_live(before, other);
        lemma_first_live(after, other);
        if first_live(before, other) >= 0 {
            let record = before[first_live(before, other)];
            assert(after.contains(record));
            let place = choose|place: int| 0 <= place < after.len() && after[place] == record;
            lemma_live_is_found(after, other, place);
        }
        if first_live(after, other) >= 0 {
            let record = after[first_live(after, other)];
            assert(kept[first_live(after, other)] == record);
            let place = choose|place: int| 0 <= place < before.len() && before[place] == record;
            lemma_live_is_found(before, other, place);
        }
    }
}

/// An exit stamps the live record of its pid with the time, keeps what the
/// record tells of the process, and leaves every other record, the session's
/// drops and its dates alone.
pub proof fn law_exit_stamps_one_record(state: ScopeModel, at: int, now_ms: i64)
    requires
        state.sessions.len() > 0,
        state.pids_unique(),
        0 <= at < state.sessions.last().processes.len(),
        state.sessions.last().processes[at].ended_at_ms is None,
    ensures
        ({
            let before = state.sessions.last();
            let after = with_exit(state, before.processes[at].pid, now_ms).sessions.last();
            &&& after.processes.len() == before.processes.len()
            &&& after.processes[at].ended_at_ms == Some(now_ms)
            &&& after.processes[at].pid == before.processes[at].pid
            &&& after.processes[at].parent_pid == before.processes[at].parent_pid
            &&& after.processes[at].name == before.processes[at].name
            &&& after.processes[at].image_path == before.processes[at].image_path
            &&& after.processes[at].command_line == before.processes[at].command_line
            &&& after.processes[at].started_at_ms == before.processes[at].started_at_ms
            &&& forall|i: int|
                0 <= i < before.processes.len() && i != at ==> #[trigger] after.processes[i]
                    == before.processes[i]
            &&& after == SessionModel { processes: after.processes, ..before }
        }),
        with_exit(state, state.sessions.last().processes[at].pid, now_ms).study_id == state.study_id,
{
    let processes = state.sessions.last().processes;
    let pid = processes[at].pid;
    assert(unique_pids(processes));
    lemma_first_live(processes, pid);
    lemma_live_is_found(processes, pid, at);
    let found = first_live(processes, pid);
    assert(processes[found].pid == processes[at].pid);
    assert(found == at);
}

/// The first write of any live member to a file that the filter passes is a
/// drop, and nothing else is.
pub proof fn law_what_a_drop_is(state: ScopeModel, pid: u32, path: Seq<char>, rules: Seq<RuleModel>)
    ensures
        drops_first(state, pid, path, rules) <==> {
            &&& state.sessions.len() > 0
            &&& exists|i: int|
                0 <= i < state.sessions.last().processes.len() && live_record(
                    #[trigger] state.sessions.last().processes[i],
                    pid,
                )
            &&& passes(rules, normal_extension(path_extension(path)))
            &&& !state.sessions.last().drops.contains(path)
        },
{
    if state.sessions.len() > 0 {
        let processes = state.sessions.last().processes;
        lemma_first_live(processes, pid);
        if exists|i: int| 0 <= i < processes.len() && live_record(#[trigger] processes[i], pid) {
            let i = choose|i: int| 0 <= i < processes.len() && live_record(#[trigger] processes[i], pid);
            lemma_live_is_found(processes, pid, i);
        }
    }
}

/// A sighted drop is remembered under its own path, can be closed once, and
/// changes neither who is in scope nor what holds of any other path.
pub proof fn law_a_drop_is_remembered(
    tracker: TrackerModel,
    state: ScopeModel,
    pid: u32,
    path: Seq<char>,
    other: Seq<char>,
    rules: Seq<RuleModel>,
)
    requires
        state.sessions.len() > 0,
        other != path,
    ensures
        with_drop(state, path).sessions.last().drops.contains(path),
        !tracker.closed.contains(path) ==> closes_first(tracker, with_drop(state, path), path),
        with_drop(state, path).scoped(pid) == state.scoped(pid),
        with_drop(state, path).dead() == state.dead(),
        with_drop(state, path).sessions.last().processes == state.sessions.last().processes,
        drops_first(with_drop(state, path), pid, other, rules) == drops_first(state, pid, other, rules),
        closes_first(tracker, with_drop(state, path), other) == closes_first(tracker, state, other),
        closes_first(
            TrackerModel { closed: tracker.closed.insert(path), ..tracker },
            state,
            other,
        ) == closes_first(tracker, state, other),
        with_drop(state, path).study_id == state.study_id,
{
}

/// The scope is dead exactly when somebody joined and nobody is a live member.
pub proof fn law_dead_means_nobody_is_left(state: ScopeModel)
    requires
        state.sessions.len() > 0,
    ensures
        state.dead() <==> state.sessions.last().processes.len() > 0 && forall|pid: u32|
            !#[trigger] state.scoped(pid),
{
    let processes = state.sessions.last().processes;
    if state.dead() {
        assert forall|pid: u32| !#[trigger] state.scoped(pid) by {
            lemma_first_live(processes, pid);
        }
    }
    if processes.len() > 0 && forall|pid: u32| !#[trigger] state.scoped(pid) {
        assert forall|i: int| 0 <= i < processes.len() implies (
        #[trigger] processes[i]).ended_at_ms is Some by {
            assert(!state.scoped(processes[i].pid));
            if processes[i].ended_at_ms is None {
                lemma_live_is_found(processes, processes[i].pid, i);
            }
        }
    }
}

/// A new session starts now with nobody in it and nothing dropped, keeps the
/// planned duration, and leaves the study and every earlier session alone.
pub proof fn law_a_session_opens_empty(
    state: ScopeModel,
    now_ms: i64,
    scheduled_duration_secs: Option<u64>,
    pid: u32,
)
    ensures
        ({
            let after = opened(state, now_ms, scheduled_duration_secs);
            &&& after.study_id == state.study_id
            &&& after.sessions.len() == state.sessions.len() + 1
            &&& after.sessions.last().started_at_ms == now_ms
            &&& after.sessions.last().scheduled_duration_secs == scheduled_duration_secs
            &&& after.sessions.last().ended_at_ms is None
            &&& !after.sessions.last().abandoned
            &&& after.sessions.last().processes.len() == 0
            &&& after.sessions.last().drops.is_empty()
            &&& !after.scoped(pid)
            &&& forall|i: int|
                0 <= i < state.sessions.len() ==> #[trigger] after.sessions[i] == state.sessions[i]
        }),
{
}

/// Announcing a name adds that name alone, once, and forgets no close.
pub proof fn law_an_expectation_adds_its_name(tracker: TrackerModel, name: Seq<char>, other: Seq<char>)
    ensures
        expecting(tracker, name).expected.contains(other) <==> tracker.expected.contains(other) || (
        other == name && name.len() > 0),
        expecting(tracker, name).closed == tracker.closed,
        expecting(expecting(tracker, name), name) == expecting(tracker, name),
        tracker.expected.no_duplicates() ==> expecting(tracker, name).expected.no_duplicates(),
{
    law_expectations_only_grow(tracker, name, other);
    law_expectations_only_grow(tracker, name, name);
    let grown = expecting(tracker, name).expected;
    if grown.contains(other) && !tracker.expected.contains(other) {
        let at = choose|at: int| 0 <= at < grown.len() && grown[at] == other;
        if at < tracker.expected.len() {
            assert(tracker.expected[at] == other);
        }
    }
}

} // verus!
