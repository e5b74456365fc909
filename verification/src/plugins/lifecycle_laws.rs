//! What a session's start and its finalization report, over their steps.

use vstd::prelude::*;

use crate::app::event::{AgentBusEvent, SandboxEvent};
use crate::domain::image_name::{divides, is_verbatim, prefix_len};
use crate::domain::path_laws::{law_extension_follows_the_dot, law_no_dot_no_extension};
use crate::domain::scope::{ScopeModel, ScopeState};
use crate::plugins::session_manager::{
    agenda, asks, begins_finalizing, begins_start, booted, drop_extensions, due, extension_key,
    finalizes, hears, law_finalization_follows_the_agenda, stage_after, start_time_ms, starts, walk, FinalizeAction,
    FinalizeRun, PipelineAction, SessionManagerPlugin, Stage, StartAction, StartRun,
};
use crate::plugins::wire::following;
use crate::protocol::payload::{FinalizeReason, Payload};
use crate::tally_laws::{law_a_histogram_counts_every_text_once, places, sum_of_counts};
use crate::text::{lowercase, opt_view, views};

verus! {

// ---- The score ----

/// Is this event the raise of the session's score to this value?
pub open spec fn raises(event: AgentBusEvent, score: u32) -> bool {
    event == AgentBusEvent::SessionScoreRaised { score }
}

/// What the plugin remembers after some bus events is the highest score among
/// them.
pub proof fn lemma_highest_raised(
    plugins: Seq<SessionManagerPlugin>,
    events: Seq<AgentBusEvent>,
    finalize: Seq<Option<FinalizeReason>>,
    count: int,
)
    requires
        0 <= count <= events.len(),
        plugins.len() == events.len() + 1,
        finalize.len() == events.len(),
        plugins[0].max_score == 0,
        forall|k: int|
            0 <= k < events.len() ==> hears(
                plugins[k],
                #[trigger] events[k],
                plugins[k + 1],
                finalize[k],
            ),
    ensures
        forall|k: int, score: u32|
            0 <= k < count && #[trigger] raises(events[k], score) ==> score <= plugins[count].max_score,
        plugins[count].max_score == 0 || exists|k: int|
            0 <= k < count && #[trigger] raises(events[k], plugins[count].max_score),
        plugins[count].deps == plugins[0].deps,
        plugins[count].finalized == plugins[0].finalized,
    decreases count,
{
    if count > 0 {
        let last = count - 1;
        lemma_highest_raised(plugins, events, finalize, last);
        assert(hears(plugins[last], events[last], plugins[count], finalize[last]));
        let held = plugins[count].max_score;
        if held != plugins[last].max_score {
            assert(raises(events[last], held));
        } else if held != 0 {
            let k = choose|k: int| 0 <= k < last && #[trigger] raises(events[k], held);
            assert(raises(events[k], held));
        }
        assert forall|k: int, score: u32|
            0 <= k < count && #[trigger] raises(events[k], score) implies score <= held by {
            if k < last {
                assert(raises(events[k], score));
            }
        }
    }
}

/// The score that a finalization reports is the highest that was raised on the
/// bus since the boot: no raise among the events taken in exceeds it, and it is
/// one of them, or 0 where there was none.
pub proof fn law_the_score_reported_is_the_highest_raised(
    plugins: Seq<SessionManagerPlugin>,
    events: Seq<AgentBusEvent>,
    finalize: Seq<Option<FinalizeReason>>,
    before: ScopeModel,
    now_ms: i64,
    reason: FinalizeReason,
    closing: SessionManagerPlugin,
    closed: ScopeModel,
    run: FinalizeRun,
    state: ScopeState,
    seq: u64,
    shifted: bool,
    action: FinalizeAction,
    after: SessionManagerPlugin,
    run_after: FinalizeRun,
    seq_after: u64,
)
    requires
        plugins.len() == events.len() + 1,
        finalize.len() == events.len(),
        plugins[0].max_score == 0,
        forall|k: int|
            0 <= k < events.len() ==> hears(
                plugins[k],
                #[trigger] events[k],
                plugins[k + 1],
                finalize[k],
            ),
        begins_finalizing(plugins.last(), before, now_ms, reason, closing, closed, Some(run)),
        finalizes(closing, run, state, seq, shifted, action, after, run_after, seq_after),
    ensures
        action matches FinalizeAction::Publish(channel, report) && channel is Event && (
        report.data matches Payload::StudyScore(data) && {
            &&& forall|k: int, score: u32|
                0 <= k < events.len() && #[trigger] raises(events[k], score) ==> score <= data.score
            &&& (exists|k: int| 0 <= k < events.len() && #[trigger] raises(events[k], data.score)) || (
            data.score == 0 && forall|k: int, score: u32|
                0 <= k < events.len() && #[trigger] raises(events[k], score) ==> score == 0)
        }),
{
    lemma_highest_raised(plugins, events, finalize, events.len() as int);
}

/// The session is finalized for a dead scope exactly where the policy says so,
/// and nothing but a raise changes what the plugin remembers.
pub proof fn law_a_dead_scope_finalizes_under_autoshutdown(
    before: SessionManagerPlugin,
    event: AgentBusEvent,
    after: SessionManagerPlugin,
    finalize: Option<FinalizeReason>,
)
    requires
        hears(before, event, after, finalize),
    ensures
        finalize is Some <==> event is ScopeDied && before.deps.autoshutdown,
        finalize is Some ==> finalize->0 is DeadScope,
        !(event is SessionScoreRaised) ==> after == before,
        after.max_score >= before.max_score,
{
}

// ---- Finalization ----

/// The stage that an action belongs to.
pub open spec fn stage_shown(action: FinalizeAction) -> Stage {
    match action {
        FinalizeAction::Publish(channel, report) => match report.data {
            Payload::StudyScore(_) => Stage::Score,
            Payload::StudyDropsSummary(_) => Stage::Drops,
            Payload::SessionFinalizing(_) => Stage::Finalizing,
            Payload::ClockAdjusted(_) => Stage::Adjusted,
            Payload::SessionEnded(_) => Stage::Ended,
            _ => Stage::Request,
        },
        FinalizeAction::ShiftClock(_) => Stage::Offset,
        FinalizeAction::KillProcesses(_) => Stage::Cleanup,
        FinalizeAction::Persist(_) => Stage::Persist,
        FinalizeAction::Done => Stage::Finished,
    }
}

/// The steps of a finalization, up to and with its end.
pub open spec fn finalization(
    plugins: Seq<SessionManagerPlugin>,
    runs: Seq<FinalizeRun>,
    states: Seq<ScopeState>,
    seqs: Seq<u64>,
    shifted: bool,
    actions: Seq<FinalizeAction>,
) -> bool {
    &&& plugins.len() == actions.len() + 1
    &&& runs.len() == actions.len() + 1
    &&& seqs.len() == actions.len() + 1
    &&& states.len() == actions.len()
    &&& forall|k: int|
        0 <= k < actions.len() ==> finalizes(
            plugins[k],
            runs[k],
            states[k],
            seqs[k],
            shifted,
            #[trigger] actions[k],
            plugins[k + 1],
            runs[k + 1],
            seqs[k + 1],
        )
}

/// Along a finalization what was noted at its beginning stays.
pub proof fn lemma_finalization_keeps(
    plugins: Seq<SessionManagerPlugin>,
    runs: Seq<FinalizeRun>,
    states: Seq<ScopeState>,
    seqs: Seq<u64>,
    shifted: bool,
    actions: Seq<FinalizeAction>,
    k: int,
)
    requires
        finalization(plugins, runs, states, seqs, shifted, actions),
        0 <= k <= actions.len(),
    ensures
        plugins[k].deps == plugins[0].deps,
        plugins[k].max_score == plugins[0].max_score,
        plugins[k].finalized == plugins[0].finalized,
        runs[k].reason == runs[0].reason,
        runs[k].now_ms == runs[0].now_ms,
        runs[k].study_id == runs[0].study_id,
        runs[k].session_id == runs[0].session_id,
        runs[k].session_count == runs[0].session_count,
    decreases k,
{
    if k > 0 {
        lemma_finalization_keeps(plugins, runs, states, seqs, shifted, actions, k - 1);
        assert(finalizes(
            plugins[k - 1],
            runs[k - 1],
            states[k - 1],
            seqs[k - 1],
            shifted,
            actions[k - 1],
            plugins[k],
            runs[k],
            seqs[k],
        ));
    }
}

/// A finalization that was begun for a session speaks of that session to its
/// end: every report carries the study, the session and the time at which it
/// began; the reason given is the reason reported and requested with; the study
/// is shut down exactly when its planned sessions are used up; the listed helper
/// processes are the ones terminated; and what is saved is the database as it
/// stands.
pub proof fn law_a_finalization_is_of_its_session(
    before: SessionManagerPlugin,
    open: ScopeModel,
    now_ms: i64,
    reason: FinalizeReason,
    closed: ScopeModel,
    plugins: Seq<SessionManagerPlugin>,
    runs: Seq<FinalizeRun>,
    states: Seq<ScopeState>,
    seqs: Seq<u64>,
    shifted: bool,
    actions: Seq<FinalizeAction>,
    k: int,
)
    requires
        begins_finalizing(before, open, now_ms, reason, plugins[0], closed, Some(runs[0])),
        open.sessions.len() <= usize::MAX,
        finalization(plugins, runs, states, seqs, shifted, actions),
        0 <= k < actions.len(),
    ensures
        actions[k] matches FinalizeAction::Publish(channel, report) ==> {
            &&& report.study == open.study_id
            &&& report.session == open.sessions.last().id
            &&& report.ts == now_ms
            &&& report.seq == seqs[k]
            &&& seqs[k + 1] == following(seqs[k])
            &&& report.data matches Payload::SessionFinalizing(data) ==> data.reason == reason
            &&& report.data matches Payload::StudyShutdownRequested(data) ==> opt_view(data.reason)
                == Some(reason.name()) && channel is Control && before.deps.uptimes@.len() > 0
                && open.sessions.len() >= before.deps.uptimes@.len()
            &&& report.data matches Payload::StudyRebootRequested(data) ==> opt_view(data.reason)
                == Some(reason.name()) && channel is Control && (before.deps.uptimes@.len() == 0
                || open.sessions.len() < before.deps.uptimes@.len())
            &&& report.data matches Payload::StudyScore(data) ==> data.score == before.max_score
            &&& channel is Control ==> report.data is StudyShutdownRequested
                || report.data is StudyRebootRequested
        },
        actions[k] matches FinalizeAction::KillProcesses(names) ==> views(names@) == views(
            before.deps.processes_to_terminate@,
        ),
        actions[k] matches FinalizeAction::Persist(snapshot) ==> snapshot@ == states[k]@,
        !(actions[k] is Publish) ==> seqs[k + 1] == seqs[k],
{
    lemma_finalization_keeps(plugins, runs, states, seqs, shifted, actions, k);
    assert(finalizes(
        plugins[k],
        runs[k],
        states[k],
        seqs[k],
        shifted,
        actions[k],
        plugins[k + 1],
        runs[k + 1],
        seqs[k + 1],
    ));
}

/// A finalization shows its stages one after the other: the score, the drops and
/// the reason; the clock where it is to be moved, and its report where that
/// worked; the helper processes where there are any; the save, the end, and the
/// request where it is not held back.
pub proof fn law_a_finalization_shows_its_stages(
    plugins: Seq<SessionManagerPlugin>,
    runs: Seq<FinalizeRun>,
    states: Seq<ScopeState>,
    seqs: Seq<u64>,
    shifted: bool,
    actions: Seq<FinalizeAction>,
    k: int,
)
    requires
        finalization(plugins, runs, states, seqs, shifted, actions),
        runs[0].stage is Score,
        0 <= k < actions.len(),
        k <= agenda(plugins[0].deps, shifted).len(),
    ensures
        k < agenda(plugins[0].deps, shifted).len() ==> stage_shown(actions[k]) == agenda(
            plugins[0].deps,
            shifted,
        )[k],
        k == agenda(plugins[0].deps, shifted).len() ==> actions[k] is Done && plugins[k
            + 1].finalize_done,
{
    let deps = plugins[0].deps;
    law_finalization_follows_the_agenda(deps, shifted);
    lemma_walk_ahead(plugins, runs, states, seqs, shifted, actions, k);
    lemma_finalization_keeps(plugins, runs, states, seqs, shifted, actions, k);
    assert(finalizes(
        plugins[k],
        runs[k],
        states[k],
        seqs[k],
        shifted,
        actions[k],
        plugins[k + 1],
        runs[k + 1],
        seqs[k + 1],
    ));
    let left = walk(deps, runs[k].stage, shifted);
    let all = agenda(deps, shifted);
    assert(left == all.skip(k));
    if k < all.len() {
        assert(left[0] == all[k]);
    } else {
        assert(left.len() == 0);
    }
}

/// After some steps, what is left of the walk is what the agenda says.
proof fn lemma_walk_ahead(
    plugins: Seq<SessionManagerPlugin>,
    runs: Seq<FinalizeRun>,
    states: Seq<ScopeState>,
    seqs: Seq<u64>,
    shifted: bool,
    actions: Seq<FinalizeAction>,
    k: int,
)
    requires
        finalization(plugins, runs, states, seqs, shifted, actions),
        0 <= k <= actions.len(),
        k <= walk(plugins[0].deps, runs[0].stage, shifted).len(),
    ensures
        walk(plugins[0].deps, runs[k].stage, shifted) == walk(
            plugins[0].deps,
            runs[0].stage,
            shifted,
        ).skip(k),
    decreases k,
{
    let deps = plugins[0].deps;
    let all = walk(deps, runs[0].stage, shifted);
    if k > 0 {
        lemma_walk_ahead(plugins, runs, states, seqs, shifted, actions, k - 1);
        lemma_finalization_keeps(plugins, runs, states, seqs, shifted, actions, k - 1);
        assert(finalizes(
            plugins[k - 1],
            runs[k - 1],
            states[k - 1],
            seqs[k - 1],
            shifted,
            actions[k - 1],
            plugins[k],
            runs[k],
            seqs[k],
        ));
        let earlier = walk(deps, runs[k - 1].stage, shifted);
        let now = due(deps, runs[k - 1].stage, shifted);
        assert(earlier == all.skip(k - 1));
        assert(earlier.len() > 0);
        assert(earlier == seq![now] + walk(deps, stage_after(deps, now), shifted));
        assert(runs[k].stage == stage_after(deps, now));
        assert(walk(deps, runs[k].stage, shifted) =~= earlier.skip(1));
        assert(earlier.skip(1) =~= all.skip(k));
    } else {
        assert(all.skip(0) =~= all);
    }
}

/// The clock is moved by the configured offset, and the report tells the very
/// time that it was moved to and the offset.
pub proof fn law_the_reported_clock_is_the_moved_clock(
    plugins: Seq<SessionManagerPlugin>,
    runs: Seq<FinalizeRun>,
    states: Seq<ScopeState>,
    seqs: Seq<u64>,
    actions: Seq<FinalizeAction>,
    moved_ms: i64,
)
    requires
        finalization(plugins, runs, states, seqs, true, actions),
        actions.len() == 2,
        actions[0] == FinalizeAction::ShiftClock(moved_ms),
        i64::MIN <= runs[0].now_ms + plugins[0].deps.time.offset_secs * 1000 <= i64::MAX,
    ensures
        moved_ms - runs[0].now_ms == plugins[0].deps.time.offset_secs * 1000,
        actions[1] matches FinalizeAction::Publish(channel, report) && (
        report.data matches Payload::ClockAdjusted(data) && {
            &&& data.to_ts == moved_ms
            &&& data.offset_secs == plugins[0].deps.time.offset_secs
            &&& data.cause is SessionOffset
        }),
{
    assert(finalizes(
        plugins[0],
        runs[0],
        states[0],
        seqs[0],
        true,
        actions[0],
        plugins[1],
        runs[1],
        seqs[1],
    ));
    assert(finalizes(
        plugins[1],
        runs[1],
        states[1],
        seqs[1],
        true,
        actions[1],
        plugins[2],
        runs[2],
        seqs[2],
    ));
}

/// Reasons are told apart by their names.
pub proof fn law_reasons_are_told_apart(left: FinalizeReason, right: FinalizeReason)
    requires
        left.name() == right.name(),
    ensures
        left == right,
{
    reveal_strlit("deadline");
    reveal_strlit("inboundrequest");
    reveal_strlit("deadscope");
    assert("deadline"@.len() == 8 && "inboundrequest"@.len() == 14 && "deadscope"@.len() == 9);
}

/// A session is finalized once: after one finalization began, no other does,
/// whatever the reason, and the database stays as it is.
pub proof fn law_a_session_is_finalized_once(
    first: SessionManagerPlugin,
    state: ScopeModel,
    now_ms: i64,
    reason: FinalizeReason,
    second: SessionManagerPlugin,
    state_after: ScopeModel,
    run: Option<FinalizeRun>,
    later: ScopeModel,
    later_ms: i64,
    other: FinalizeReason,
    third: SessionManagerPlugin,
    later_after: ScopeModel,
    again: Option<FinalizeRun>,
)
    requires
        begins_finalizing(first, state, now_ms, reason, second, state_after, run),
        begins_finalizing(second, later, later_ms, other, third, later_after, again),
    ensures
        again is None,
        later_after == later,
        !first.finalized && state.sessions.len() > 0 ==> run is Some,
        asks(second, SandboxEvent::PersistTick) is Nothing,
{
}

/// Closing a session stamps it and whoever still runs with the time, and keeps
/// the ends that were noted before, what the records tell, and the drops.
pub proof fn law_closing_stamps_who_still_runs(
    before: SessionManagerPlugin,
    state: ScopeModel,
    now_ms: i64,
    reason: FinalizeReason,
    after: SessionManagerPlugin,
    state_after: ScopeModel,
    run: FinalizeRun,
    at: int,
)
    requires
        begins_finalizing(before, state, now_ms, reason, after, state_after, Some(run)),
        0 <= at < state.sessions.last().processes.len(),
    ensures
        ({
            let (old_session, new_session) = (state.sessions.last(), state_after.sessions.last());
            let (old_record, new_record) = (old_session.processes[at], new_session.processes[at]);
            &&& new_session.ended_at_ms == Some(now_ms)
            &&& new_session.drops == old_session.drops
            &&& new_session.abandoned == old_session.abandoned
            &&& new_session.processes.len() == old_session.processes.len()
            &&& old_record.ended_at_ms is Some ==> new_record == old_record
            &&& old_record.ended_at_ms is None ==> new_record.ended_at_ms == Some(now_ms)
            &&& new_record.pid == old_record.pid
            &&& new_record.parent_pid == old_record.parent_pid
            &&& new_record.name == old_record.name
            &&& new_record.image_path == old_record.image_path
            &&& new_record.command_line == old_record.command_line
            &&& new_record.started_at_ms == old_record.started_at_ms
        }),
{
}

/// The drops summary counts every observed drop once, under its own extension:
/// the counts add up to the drops, each drop's extension has one entry, and each
/// entry counts its extension's drops.
pub proof fn law_the_summary_counts_every_drop(
    before: SessionManagerPlugin,
    run: FinalizeRun,
    state: ScopeState,
    seq: u64,
    shifted: bool,
    action: FinalizeAction,
    after: SessionManagerPlugin,
    run_after: FinalizeRun,
    seq_after: u64,
)
    requires
        run.stage is Drops,
        state.sessions@.len() > 0,
        state.sessions@.last().observed_drops.listed().len() <= u32::MAX,
        finalizes(before, run, state, seq, shifted, action, after, run_after, seq_after),
    ensures
        action matches FinalizeAction::Publish(channel, report) && channel is Event && (
        report.data matches Payload::StudyDropsSummary(data) && {
            let drops = state.sessions@.last().observed_drops.listed();
            let keys = drops.map_values(|path: Seq<char>| extension_key(path));
            &&& sum_of_counts(data.extensions@) == drops.len()
            &&& forall|i: int|
                0 <= i < drops.len() ==> exists|k: int|
                    0 <= k < data.extensions@.len() && (#[trigger] data.extensions@[k]).0@
                        == extension_key(#[trigger] drops[i])
            &&& forall|k: int, l: int|
                0 <= k < l < data.extensions@.len() ==> (#[trigger] data.extensions@[k]).0@ != (
                #[trigger] data.extensions@[l]).0@
            &&& forall|k: int|
                0 <= k < data.extensions@.len() ==> (#[trigger] data.extensions@[k]).1 == places(
                    keys,
                    data.extensions@[k].0@,
                )
        }),
{
    if let FinalizeAction::Publish(channel, report) = action {
        if let Payload::StudyDropsSummary(data) = report.data {
            let drops = state.sessions@.last().observed_drops.listed();
            let keys = drops.map_values(|path: Seq<char>| extension_key(path));
            assert(drop_extensions(state) == keys);
            law_a_histogram_counts_every_text_once(data.extensions@, keys);
            assert forall|i: int| 0 <= i < drops.len() implies exists|k: int|
                0 <= k < data.extensions@.len() && (#[trigger] data.extensions@[k]).0@ == extension_key(
                    #[trigger] drops[i],
                ) by {
                assert(keys[i] == extension_key(drops[i]));
                let k = choose|k: int|
                    0 <= k < data.extensions@.len() && (#[trigger] data.extensions@[k]).0@ == keys[i];
                assert(data.extensions@[k].0@ == extension_key(drops[i]));
            }
        }
    }
}

/// A drop counts under its extension in lower case, whatever its name, and under
/// the empty extension where it has none.
pub proof fn law_drops_count_by_extension(before: Seq<char>, extension: Seq<char>, bare: Seq<char>)
    requires
        extension.len() > 0,
        forall|i: int|
            0 <= i < extension.len() ==> #[trigger] extension[i] != '.' && extension[i] != '/'
                && extension[i] != '\\',
        prefix_len(before.push('.') + extension) < before.len(),
        !divides(is_verbatim(before.push('.') + extension), before.last()),
        !bare.contains('.'),
    ensures
        extension_key(before.push('.') + extension) == lowercase(extension),
        extension_key(bare) == Seq::<char>::empty(),
{
    law_extension_follows_the_dot(before, extension);
    law_no_dot_no_extension(bare);
}

// ---- Start ----

/// The planned durations are used in order, one a session, and a session beyond
/// the table has none.
pub proof fn law_sessions_use_the_table_in_order(state: ScopeModel, uptimes: Seq<u64>, now_ms: i64)
    requires
        state.sessions.len() <= u32::MAX,
    ensures
        ({
            let fresh = booted(state, uptimes, now_ms).sessions.last();
            let at = state.sessions.len() as int;
            &&& at < uptimes.len() ==> fresh.scheduled_duration_secs == Some(uptimes[at])
            &&& at >= uptimes.len() ==> fresh.scheduled_duration_secs is None
            &&& fresh.started_at_ms == now_ms
            &&& fresh.id == at
        }),
{
}

/// At the start of a study the clock is set to the configured time, in seconds;
/// the report tells that very time, stamped with it, and how many whole seconds
/// the clock jumped; the agent's version and the session's planned duration
/// follow, and that is all. Where the clock could not be set, its report is left
/// out.
pub proof fn law_a_study_starts_at_its_time(
    plugin: SessionManagerPlugin,
    state: ScopeModel,
    began_ms: i64,
    runs: Seq<StartRun>,
    seqs: Seq<u64>,
    now_ms: Seq<i64>,
    clock_set: bool,
    actions: Seq<StartAction>,
)
    requires
        begins_start(plugin, state, began_ms, Some(runs[0])),
        state.sessions.len() == 1,
        !plugin.deps.skip_time_manipulation,
        0 < plugin.deps.time.timestamp,
        plugin.deps.time.timestamp * 1000 <= i64::MAX,
        runs.len() == 6,
        seqs.len() == 6,
        now_ms.len() == 5,
        actions.len() == 5,
        forall|k: int|
            0 <= k < 5 ==> starts(
                plugin,
                runs[k],
                state,
                seqs[k],
                now_ms[k],
                clock_set,
                #[trigger] actions[k],
                runs[k + 1],
                seqs[k + 1],
            ),
    ensures
        actions[0] matches StartAction::SetClock(time_ms) && {
            &&& time_ms == plugin.deps.time.timestamp * 1000
            &&& clock_set ==> (actions[1] matches StartAction::Publish(report) && {
                &&& report.ts == time_ms
                &&& (report.data matches Payload::ClockAdjusted(data) && {
                    &&& data.to_ts == time_ms
                    &&& data.cause is StudyStart
                    &&& time_ms >= began_ms ==> data.offset_secs >= 0 && 0 <= (time_ms - began_ms)
                        - data.offset_secs * 1000 < 1000
                    &&& time_ms < began_ms ==> data.offset_secs <= 0 && -1000 < (time_ms - began_ms)
                        - data.offset_secs * 1000 <= 0
                })
            })
        },
        ({
            let agent: int = if clock_set {
                2
            } else {
                1
            };
            &&& (actions[agent] matches StartAction::Publish(report) && report.ts == now_ms[agent] && (
            report.data matches Payload::AgentState(data) && data.agent_version@
                == plugin.deps.agent_version@))
            &&& (actions[agent + 1] matches StartAction::Publish(report) && report.ts == now_ms[agent + 1]
                && (report.data matches Payload::SessionStarted(data) && data.scheduled_duration_secs
                == state.sessions.last().scheduled_duration_secs))
            &&& actions[agent + 2] is Done
        }),
{
    assert(starts(plugin, runs[0], state, seqs[0], now_ms[0], clock_set, actions[0], runs[1], seqs[1]));
    assert(starts(plugin, runs[1], state, seqs[1], now_ms[1], clock_set, actions[1], runs[2], seqs[2]));
    assert(starts(plugin, runs[2], state, seqs[2], now_ms[2], clock_set, actions[2], runs[3], seqs[3]));
    assert(starts(plugin, runs[3], state, seqs[3], now_ms[3], clock_set, actions[3], runs[4], seqs[4]));
    assert(starts(plugin, runs[4], state, seqs[4], now_ms[4], clock_set, actions[4], runs[5], seqs[5]));
}

/// The study's time is its timestamp in milliseconds as far as the clock can show
/// it; a later one is the latest that it can show, and one that is no time at all
/// is the epoch.
pub proof fn law_late_times_are_held_back(timestamp: u64)
    ensures
        timestamp * 1000 <= i64::MAX ==> start_time_ms(timestamp) == timestamp * 1000,
        timestamp <= i64::MAX && timestamp * 1000 > i64::MAX ==> start_time_ms(timestamp) == i64::MAX,
        timestamp > i64::MAX ==> start_time_ms(timestamp) == 0,
{
}

/// A later session of a study, one without a configured time and one whose time
/// is to be left alone start without touching the clock.
pub proof fn law_other_starts_leave_the_clock_alone(
    plugin: SessionManagerPlugin,
    state: ScopeModel,
    began_ms: i64,
    runs: Seq<StartRun>,
    seqs: Seq<u64>,
    now_ms: Seq<i64>,
    clock_set: Seq<bool>,
    actions: Seq<StartAction>,
)
    requires
        begins_start(plugin, state, began_ms, Some(runs[0])),
        state.sessions.len() != 1 || plugin.deps.skip_time_manipulation || plugin.deps.time.timestamp
            == 0,
        runs.len() == 4,
        seqs.len() == 4,
        now_ms.len() == 3,
        actions.len() == 3,
        forall|k: int|
            0 <= k < 3 ==> starts(
                plugin,
                runs[k],
                state,
                seqs[k],
                now_ms[k],
                clock_set[k],
                #[trigger] actions[k],
                runs[k + 1],
                seqs[k + 1],
            ),
    ensures
        actions[0] matches StartAction::Publish(report) && report.data is AgentState,
        actions[1] matches StartAction::Publish(report) && report.data is SessionStarted,
        actions[2] is Done,
{
    assert(starts(plugin, runs[0], state, seqs[0], now_ms[0], clock_set[0], actions[0], runs[1], seqs[1]));
    assert(starts(plugin, runs[1], state, seqs[1], now_ms[1], clock_set[1], actions[1], runs[2], seqs[2]));
    assert(starts(plugin, runs[2], state, seqs[2], now_ms[2], clock_set[2], actions[2], runs[3], seqs[3]));
}

/// The deadline and a service stop finalize the session, each for its own
/// reason; a persist tick saves it until it is finalized; nothing else is asked.
pub proof fn law_what_is_asked_of_the_host(plugin: SessionManagerPlugin, event: SandboxEvent)
    ensures
        asks(plugin, event) is Finalize <==> event is SessionDeadline || event is ServiceStop,
        asks(plugin, event) is Persist <==> event is PersistTick && !plugin.finalized,
        asks(plugin, event) matches PipelineAction::Finalize(reason) ==> (reason is Deadline
            <==> event is SessionDeadline) && (reason is InboundRequest <==> event is ServiceStop),
{
}

} // verus!
