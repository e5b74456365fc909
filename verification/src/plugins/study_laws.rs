//! What holds of whole studies: across boots, and across everything that is
//! published in one boot.

use vstd::prelude::*;

use crate::domain::scope::{boot_id, with_drop, with_exit, with_process, ProcessModel, ScopeModel, ScopeState};
use crate::plugins::drops_collector::{collects, CollectAction, CollectEvent, DropsCollectorPlugin};
use crate::plugins::screenshot_intake::{handles_frame, FrameAction, FramePhase, FrameRun};
use crate::plugins::session_manager::{
    booted, ended_session, law_boot_advances_the_study, only_last_open, performs, planned, start_performs,
    study_over, FinalizeAction, FinalizeRun, SessionManagerPlugin, Stage, StartAction, StartRun, StartStage,
};
use crate::plugins::target_launcher::{
    detonation_step, LaunchAction, LaunchEvent, LaunchPhase, TargetLauncherDeps,
};
use crate::plugins::wire::following;
use crate::protocol::config::ScreenshotsConfig;
use crate::protocol::nats::Envelope;

verus! {

// ---- Across boots ----

/// Two databases tell of the same study and sessions: they differ at most in what
/// the last session's scope saw, and in whether it has ended.
pub open spec fn same_study(before: ScopeModel, after: ScopeModel) -> bool {
    &&& after.study_id == before.study_id
    &&& after.sessions.len() == before.sessions.len()
    &&& after.sessions.drop_last() == before.sessions.drop_last()
    &&& before.sessions.len() > 0 ==> {
        let (old_last, new_last) = (before.sessions.last(), after.sessions.last());
        &&& new_last.id == old_last.id
        &&& new_last.scheduled_duration_secs == old_last.scheduled_duration_secs
        &&& new_last.started_at_ms == old_last.started_at_ms
        &&& new_last.abandoned == old_last.abandoned
    }
}

/// Whatever the scope sees, and however the session ends, it is the same session
/// of the same study.
pub proof fn law_sessions_keep_their_identity(
    state: ScopeModel,
    process: ProcessModel,
    pid: u32,
    path: Seq<char>,
    now_ms: i64,
)
    requires
        state.sessions.len() > 0,
    ensures
        same_study(state, with_process(state, process)),
        same_study(state, with_exit(state, pid, now_ms)),
        same_study(state, with_drop(state, path)),
        same_study(state, state.with_current(ended_session(state.sessions.last(), now_ms))),
{
    assert(with_process(state, process).sessions.drop_last() =~= state.sessions.drop_last());
    assert(with_exit(state, pid, now_ms).sessions.drop_last() =~= state.sessions.drop_last());
    assert(with_drop(state, path).sessions.drop_last() =~= state.sessions.drop_last());
    let ended = state.with_current(ended_session(state.sessions.last(), now_ms));
    assert(ended.sessions.drop_last() =~= state.sessions.drop_last());
}

/// Sameness carries over.
pub proof fn law_same_study_is_transitive(first: ScopeModel, second: ScopeModel, third: ScopeModel)
    requires
        same_study(first, second),
        same_study(second, third),
    ensures
        same_study(first, third),
{
}

/// One boot, from the database it found to the one it left behind.
pub open spec fn is_boot(before: ScopeModel, uptimes: Seq<u64>, began_ms: i64, after: ScopeModel) -> bool {
    same_study(booted(before, uptimes, began_ms), after)
}

/// Every session was planned by the table.
pub open spec fn follows_the_plan(state: ScopeModel, uptimes: Seq<u64>) -> bool {
    forall|i: int|
        0 <= i < state.sessions.len() ==> (#[trigger] state.sessions[i]).scheduled_duration_secs == planned(
            uptimes,
            boot_id(i as nat),
        )
}

/// A boot leaves a database of the same kind behind, with one session more.
proof fn lemma_boot(before: ScopeModel, uptimes: Seq<u64>, began_ms: i64, after: ScopeModel)
    requires
        is_boot(before, uptimes, began_ms, after),
        before.numbered(),
        follows_the_plan(before, uptimes),
        only_last_open(before),
    ensures
        after.study_id == before.study_id,
        after.sessions.len() == before.sessions.len() + 1,
        after.numbered(),
        after.session_id() == boot_id(before.sessions.len()),
        follows_the_plan(after, uptimes),
        only_last_open(after),
{
    law_boot_advances_the_study(before, uptimes, began_ms);
    let open = booted(before, uptimes, began_ms);
    let last = before.sessions.len() as int;
    assert forall|i: int| 0 <= i < last implies after.sessions[i] == open.sessions[i] by {
        assert(after.sessions.drop_last()[i] == open.sessions.drop_last()[i]);
    }
    assert forall|i: int| 0 <= i <= last implies (#[trigger] after.sessions[i]).id == boot_id(i as nat) by {
        assert(open.sessions[i].id == boot_id(i as nat));
    }
    assert forall|i: int| 0 <= i <= last implies (#[trigger] after.sessions[i]).scheduled_duration_secs
        == planned(uptimes, boot_id(i as nat)) by {
        if i < last {
            assert(before.sessions[i].scheduled_duration_secs == planned(uptimes, boot_id(i as nat)));
        }
    }
    assert forall|i: int| 0 <= i < last implies (#[trigger] after.sessions[i]).ended_at_ms is Some by {
        assert(open.sessions[i].ended_at_ms is Some);
    }
}

/// A study over any number of boots, clean or not: the study id never changes, each
/// boot adds exactly one session, the sessions are numbered by boot and follow the
/// table of uptimes, and no session but the last is open.
pub proof fn law_a_study_is_one_session_per_boot(history: Seq<ScopeModel>, uptimes: Seq<u64>, began_ms: Seq<i64>)
    requires
        history.len() == began_ms.len() + 1,
        history[0].sessions.len() == 0,
        forall|k: int|
            0 <= k < began_ms.len() ==> is_boot(
                history[k],
                uptimes,
                #[trigger] began_ms[k],
                history[k + 1],
            ),
    ensures
        history.last().study_id == history[0].study_id,
        history.last().sessions.len() == began_ms.len(),
        history.last().numbered(),
        began_ms.len() > 0 ==> history.last().session_id() == boot_id((began_ms.len() - 1) as nat),
        follows_the_plan(history.last(), uptimes),
        only_last_open(history.last()),
    decreases began_ms.len(),
{
    if began_ms.len() > 0 {
        let count = began_ms.len() - 1;
        let earlier = history.drop_last();
        let began_before = began_ms.drop_last();
        assert forall|k: int| 0 <= k < began_before.len() implies is_boot(
            earlier[k],
            uptimes,
            #[trigger] began_before[k],
            earlier[k + 1],
        ) by {
            assert(is_boot(history[k], uptimes, began_ms[k], history[k + 1]));
        }
        law_a_study_is_one_session_per_boot(earlier, uptimes, began_before);
        assert(is_boot(history[count], uptimes, began_ms[count], history[count + 1]));
        lemma_boot(history[count], uptimes, began_ms[count], history[count + 1]);
    }
}

/// The control tail of a study: with a table of uptimes, the session that uses up
/// the table asks for the shutdown, and every earlier one for a reboot. Without a
/// table every session asks for a reboot.
pub proof fn law_the_last_planned_session_shuts_the_study_down(
    plugin: SessionManagerPlugin,
    run: FinalizeRun,
    state: ScopeState,
    seq: u64,
    action: FinalizeAction,
)
    requires
        performs(plugin, run, Stage::Request, state, seq, action),
    ensures
        action is Publish && action->Publish_0 is Control,
        action->Publish_1.data is StudyShutdownRequested <==> plugin.deps.uptimes@.len() > 0
            && run.session_count >= plugin.deps.uptimes@.len(),
        action->Publish_1.data is StudyRebootRequested <==> plugin.deps.uptimes@.len() == 0
            || run.session_count < plugin.deps.uptimes@.len(),
{
    assert(study_over(plugin.deps.uptimes@, run.session_count as nat) == (plugin.deps.uptimes@.len() > 0
        && run.session_count >= plugin.deps.uptimes@.len()));
}

// ---- Across one boot's messages ----

/// A step of a publisher: what it published took the counter's number and moved the
/// counter on; where it published nothing, the counter stands.
pub open spec fn counts(before: u64, published: Option<Envelope>, after: u64) -> bool {
    match published {
        Some(envelope) => envelope.seq == before && after == following(before),
        None => after == before,
    }
}

/// What a start publishes.
pub open spec fn start_message(action: StartAction) -> Option<Envelope> {
    match action {
        StartAction::Publish(envelope) => Some(envelope),
        _ => None,
    }
}

/// What a finalization publishes.
pub open spec fn final_message(action: FinalizeAction) -> Option<Envelope> {
    match action {
        FinalizeAction::Publish(_, envelope) => Some(envelope),
        _ => None,
    }
}

/// What a collection publishes.
pub open spec fn drop_message(action: CollectAction) -> Option<Envelope> {
    match action {
        CollectAction::Publish(envelope) => Some(envelope),
        _ => None,
    }
}

/// What a screenshot's job publishes.
pub open spec fn frame_message(action: FrameAction) -> Option<Envelope> {
    match action {
        FrameAction::Publish(envelope) => Some(envelope),
        _ => None,
    }
}

/// What a launch publishes.
pub open spec fn launch_message(action: LaunchAction) -> Option<Envelope> {
    match action {
        LaunchAction::Publish(envelope) => Some(envelope),
        _ => None,
    }
}

/// A session start counts its messages.
pub proof fn law_starts_count(
    plugin: SessionManagerPlugin,
    run: StartRun,
    stage: StartStage,
    state: ScopeModel,
    seq: u64,
    now_ms: i64,
    action: StartAction,
    after: u64,
)
    requires
        start_performs(plugin, run, stage, state, seq, now_ms, action),
        after == if action is Publish {
            following(seq)
        } else {
            seq
        },
    ensures
        counts(seq, start_message(action), after),
{
}

/// A finalization counts its messages.
pub proof fn law_finalizations_count(
    plugin: SessionManagerPlugin,
    run: FinalizeRun,
    stage: Stage,
    state: ScopeState,
    seq: u64,
    action: FinalizeAction,
    after: u64,
)
    requires
        performs(plugin, run, stage, state, seq, action),
        after == if action is Publish {
            following(seq)
        } else {
            seq
        },
    ensures
        counts(seq, final_message(action), after),
{
}

/// A collection counts its messages.
pub proof fn law_collections_count(
    before: DropsCollectorPlugin,
    event: CollectEvent,
    seq: u64,
    now_ms: i64,
    plugin: DropsCollectorPlugin,
    action: CollectAction,
    after: u64,
)
    requires
        collects(before, event, seq, now_ms, plugin, action, after),
    ensures
        counts(seq, drop_message(action), after),
{
}

/// A screenshot's job counts its messages.
pub proof fn law_frames_count(
    config: ScreenshotsConfig,
    run: FrameRun,
    ok: bool,
    seq: u64,
    now_ms: i64,
    phase: FramePhase,
    action: FrameAction,
    after: u64,
)
    requires
        handles_frame(config, run, ok, seq, now_ms, phase, action, after),
    ensures
        counts(seq, frame_message(action), after),
{
}

/// A launch counts its messages.
pub proof fn law_launches_count(
    deps: TargetLauncherDeps,
    before: LaunchPhase,
    event: LaunchEvent,
    state: ScopeModel,
    seq: u64,
    now_ms: i64,
    phase: LaunchPhase,
    action: LaunchAction,
    after: u64,
)
    requires
        detonation_step(deps, before, event, state, seq, now_ms, phase, action, after),
    ensures
        counts(seq, launch_message(action), after),
{
}

/// The messages among the steps, in order.
pub open spec fn sent(steps: Seq<Option<Envelope>>) -> Seq<Envelope>
    decreases steps.len(),
{
    if steps.len() == 0 {
        Seq::empty()
    } else {
        match steps.last() {
            Some(envelope) => sent(steps.drop_last()).push(envelope),
            None => sent(steps.drop_last()),
        }
    }
}

/// How many numbers there are before they start over.
pub open spec fn numbers() -> int {
    u64::MAX + 1
}

/// However the publishers of one boot take turns on the one counter, the messages
/// on the wire carry consecutive numbers: a gap means a lost message, and no number
/// comes twice before all of them have been used.
pub proof fn law_the_wire_has_no_gaps(counter: Seq<u64>, steps: Seq<Option<Envelope>>)
    requires
        counter.len() == steps.len() + 1,
        forall|i: int|
            0 <= i < steps.len() ==> counts(counter[i], #[trigger] steps[i], counter[i + 1]),
    ensures
        forall|k: int|
            0 <= k < sent(steps).len() ==> (#[trigger] sent(steps)[k]).seq == (counter[0] + k) % numbers(),
        counter.last() == (counter[0] + sent(steps).len()) % numbers(),
    decreases steps.len(),
{
    if steps.len() > 0 {
        let earlier = steps.drop_last();
        let counter_before = counter.drop_last();
        assert forall|i: int| 0 <= i < earlier.len() implies counts(
            counter_before[i],
            #[trigger] earlier[i],
            counter_before[i + 1],
        ) by {
            assert(counts(counter[i], steps[i], counter[i + 1]));
        }
        law_the_wire_has_no_gaps(counter_before, earlier);
        let at = steps.len() - 1;
        assert(counts(counter[at], steps[at], counter[at + 1]));
        assert(counter_before.last() == counter[at]);
        let base = counter[0] + sent(earlier).len();
        assert(following(counter[at]) == (base + 1) % numbers()) by {
            vstd::arithmetic::div_mod::lemma_add_mod_noop(base, 1, numbers());
        }
        assert forall|k: int| 0 <= k < sent(steps).len() implies (#[trigger] sent(steps)[k]).seq == (counter[0]
            + k) % numbers() by {
            if k < sent(earlier).len() {
                assert(sent(steps)[k] == sent(earlier)[k]);
            }
        }
    } else {
        vstd::arithmetic::div_mod::lemma_small_mod(counter[0] as nat, numbers() as nat);
    }
}

} // verus!
