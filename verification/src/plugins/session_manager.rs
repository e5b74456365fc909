//! `session-manager`: the session lifecycle state machine and finalizer.
//!
//! Finalize sequence: reports (`study.score` = session maximum,
//! `study.drops_summary` histogram), `session.finalizing`, clock offset
//! (`clock.adjusted`), termination of configured helper processes, persist,
//! `session.ended`, reboot/shutdown request on the control channel.
//!
//! - A session beyond the planned table of uptimes runs dynamic (no scheduled
//!   deadline).
//! - Early finalization on a dead scope only fires when the scope actually died.
//! - An unclean reboot cannot stall the study: the leftover open session is
//!   stamped `abandoned` at the next boot and a fresh session opens.

use vstd::prelude::*;

use crate::app::event::{AgentBusEvent, SandboxEvent};
use crate::collections::{is_tally, tally};
use crate::domain::drop_filter::normal_extension;
use crate::domain::image_name::{extension, path_extension};
use crate::domain::scope::{
    boot_id, new_session, next_session_id, opened, process_models, session_models, ProcessModel, ScopeModel,
    ScopeState, SessionModel, SessionRecord,
};
use crate::domain::study_id::StudyId;
use crate::plugins::wire::{compose, envelope_raw, following, message, next_seq};
use crate::ports::Channel;
use crate::protocol::config::TimeConfig;
use crate::protocol::events::EventType;
use crate::protocol::nats::{Envelope, PROTOCOL_VERSION};
use crate::protocol::payload::{
    AgentStateData, ClockAdjustedData, ClockCause, FinalizeReason, Payload, SessionEndedData,
    SessionFinalizingData, SessionStartedData, StudyDropsSummaryData, StudyRebootRequestedData, StudyScoreData,
    StudyShutdownRequestedData,
};
use crate::text::{opt_view, to_lowercase, views};

verus! {

/// What the plugin goes by.
#[derive(Debug)]
pub struct SessionManagerDeps {
    /// Image names for the finalize sweep.
    pub processes_to_terminate: Vec<String>,
    /// Planned session durations, seconds.
    pub uptimes: Vec<u64>,
    /// Finalize early when the scope dies.
    pub autoshutdown: bool,
    /// Time manipulation policy (fake start timestamp, finalize offset).
    pub time: TimeConfig,
    /// Debug gate for all clock manipulation.
    pub skip_time_manipulation: bool,
    /// Debug gate for the reboot/shutdown request.
    pub skip_reboot_and_shutdown: bool,
    /// Agent version for `agent.state`.
    pub agent_version: String,
}

/// Session lifecycle plugin.
#[derive(Debug)]
pub struct SessionManagerPlugin {
    /// What it goes by.
    pub deps: SessionManagerDeps,
    /// A finalization was started this boot.
    pub finalized: bool,
    /// A finalization has fully completed, persist and final publishes included.
    pub finalize_done: bool,
    /// Session maximum score.
    pub max_score: u32,
}

// ---- Boot ----

/// The planned duration of a session; beyond the table there is none.
pub open spec fn planned(uptimes: Seq<u64>, id: u32) -> Option<u64> {
    if (id as int) < uptimes.len() {
        Some(uptimes[id as int])
    } else {
        None
    }
}

/// A leftover open session is closed as abandoned.
pub open spec fn leftover_closed(state: ScopeModel, now_ms: i64) -> ScopeModel {
    if state.sessions.len() > 0 && state.sessions.last().ended_at_ms is None {
        state.with_current(
            SessionModel { ended_at_ms: Some(now_ms), abandoned: true, ..state.sessions.last() },
        )
    } else {
        state
    }
}

/// The database after a boot.
pub open spec fn booted(state: ScopeModel, uptimes: Seq<u64>, now_ms: i64) -> ScopeModel {
    opened(
        leftover_closed(state, now_ms),
        now_ms,
        planned(uptimes, boot_id(state.sessions.len())),
    )
}

/// Every session but the last has ended.
pub open spec fn only_last_open(state: ScopeModel) -> bool {
    forall|i: int|
        0 <= i < state.sessions.len() - 1 ==> (#[trigger] state.sessions[i]).ended_at_ms is Some
}

/// Open the session exactly once per boot: stamp a leftover open session as
/// abandoned, then always push a fresh record.
///
/// An open session at boot can only be an unclean-reboot leftover: finalization
/// stamps the end before it asks for the reboot. Reusing that record would stall
/// the study.
pub fn open_session_if_needed(uptimes: &Vec<u64>, state: &mut ScopeState, now_ms: i64)
    requires
        old(state).wf(),
    ensures
        final(state).wf(),
        final(state)@ == booted(old(state)@, uptimes@, now_ms),
{
    let ghost before = *state;
    let count: usize = state.sessions.len();
    if count > 0 && state.sessions[count - 1].ended_at_ms.is_none() {
        state.sessions[count - 1].ended_at_ms = Some(now_ms);
        state.sessions[count - 1].abandoned = true;
    }
    proof {
        assert(session_models(state.sessions@) =~= leftover_closed(before@, now_ms).sessions);
    }
    let id = next_session_id(count);
    let scheduled = if (id as usize) < uptimes.len() {
        Some(uptimes[id as usize])
    } else {
        None
    };
    let ghost prior = session_models(state.sessions@);
    state.sessions.push(new_session(id, now_ms, scheduled));
    proof {
        assert(session_models(state.sessions@) =~= prior.push(state.sessions@.last()@));
    }
}

/// A boot opens exactly one session whose id is the boot index, closes a
/// leftover as abandoned, leaves every other earlier session alone, and leaves
/// only the new session open.
pub proof fn law_boot_advances_the_study(state: ScopeModel, uptimes: Seq<u64>, now_ms: i64)
    requires
        state.numbered(),
        only_last_open(state),
    ensures
        booted(state, uptimes, now_ms).numbered(),
        booted(state, uptimes, now_ms).sessions.len() == state.sessions.len() + 1,
        booted(state, uptimes, now_ms).session_id() == boot_id(state.sessions.len()),
        booted(state, uptimes, now_ms).study_id == state.study_id,
        booted(state, uptimes, now_ms).sessions.last().ended_at_ms is None,
        only_last_open(booted(state, uptimes, now_ms)),
        !booted(state, uptimes, now_ms).dead(),
        forall|i: int|
            0 <= i < state.sessions.len() - 1 ==> #[trigger] booted(state, uptimes, now_ms).sessions[i]
                == state.sessions[i],
        state.sessions.len() > 0 ==> ({
            let before = state.sessions.last();
            let after = booted(state, uptimes, now_ms).sessions[state.sessions.len() - 1];
            if before.ended_at_ms is None {
                after == (SessionModel { ended_at_ms: Some(now_ms), abandoned: true, ..before })
            } else {
                after == before
            }
        }),
{
    let after = booted(state, uptimes, now_ms);
    assert forall|i: int| 0 <= i < after.sessions.len() implies (#[trigger] after.sessions[i]).id
        == boot_id(i as nat) by {
        if i < state.sessions.len() {
            assert(state.sessions[i].id == boot_id(i as nat));
        }
    }
}

// ---- Start ----

/// The fake time at study start, in milliseconds.
pub open spec fn start_time_ms(timestamp: u64) -> i64 {
    if timestamp > i64::MAX {
        0
    } else if timestamp * 1000 > i64::MAX {
        i64::MAX
    } else {
        (timestamp * 1000) as i64
    }
}

/// Milliseconds as whole seconds, the fraction dropped.
pub open spec fn whole_seconds(ms: int) -> int {
    if ms >= 0 {
        ms / 1000
    } else {
        -((-ms) / 1000)
    }
}

/// Is the clock set at the start of this session?
pub open spec fn sets_start_time(deps: SessionManagerDeps, state: ScopeModel) -> bool {
    state.sessions.len() == 1 && !deps.skip_time_manipulation && deps.time.timestamp != 0
}

/// The stages of a session start, in order.
#[derive(Debug, Clone, Copy, PartialEq, Eq, Structural)]
pub enum StartStage {
    /// Set the fake study time.
    Clock,
    /// Report it, if it could be set.
    ClockReport,
    /// Report the agent.
    AgentState,
    /// Report the session.
    Started,
    /// Nothing is left.
    Finished,
}

/// A session start in progress.
#[derive(Debug)]
pub struct StartRun {
    /// What is due next.
    pub stage: StartStage,
    /// The clock before it was set.
    pub real_now_ms: i64,
    /// The time it is set to.
    pub target_ms: i64,
}

/// What the host does next.
#[derive(Debug)]
pub enum StartAction {
    /// Set the clock, and say in the next step whether that worked.
    SetClock(i64),
    /// Publish on the event channel.
    Publish(Envelope),
    /// The start is complete: consume the bus.
    Done,
}

/// The stage that acts now: the report is skipped where the clock was not set.
pub open spec fn start_due(stage: StartStage, clock_set: bool) -> StartStage {
    if stage is ClockReport && !clock_set {
        StartStage::AgentState
    } else {
        stage
    }
}

/// The stage after one that acted.
pub open spec fn start_then(stage: StartStage) -> StartStage {
    match stage {
        StartStage::Clock => StartStage::ClockReport,
        StartStage::ClockReport => StartStage::AgentState,
        StartStage::AgentState => StartStage::Started,
        StartStage::Started => StartStage::Finished,
        StartStage::Finished => StartStage::Finished,
    }
}

/// What a stage of the start does.
pub open spec fn start_performs(
    plugin: SessionManagerPlugin,
    run: StartRun,
    stage: StartStage,
    state: ScopeModel,
    seq: u64,
    now_ms: i64,
    action: StartAction,
) -> bool {
    match stage {
        StartStage::Clock => action == StartAction::SetClock(run.target_ms),
        StartStage::ClockReport => action == StartAction::Publish(
            message(
                state,
                seq,
                run.target_ms,
                Payload::ClockAdjusted(
                    ClockAdjustedData {
                        to_ts: run.target_ms,
                        offset_secs: whole_seconds(run.target_ms - run.real_now_ms) as i64,
                        cause: ClockCause::StudyStart,
                    },
                ),
            ),
        ),
        StartStage::AgentState => action == StartAction::Publish(
            message(
                state,
                seq,
                now_ms,
                Payload::AgentState(AgentStateData { agent_version: plugin.deps.agent_version }),
            ),
        ),
        StartStage::Started => action == StartAction::Publish(
            message(
                state,
                seq,
                now_ms,
                Payload::SessionStarted(
                    SessionStartedData {
                        scheduled_duration_secs: state.sessions.last().scheduled_duration_secs,
                    },
                ),
            ),
        ),
        StartStage::Finished => action is Done,
    }
}

// ---- Finalize ----

/// The stages of a finalization, in order.
#[derive(Debug, Clone, Copy, PartialEq, Eq, Structural)]
pub enum Stage {
    /// Report the session's score.
    Score,
    /// Report the session's drops.
    Drops,
    /// Announce the finalization.
    Finalizing,
    /// Shift the clock.
    Offset,
    /// Report the shift, if it worked.
    Adjusted,
    /// Terminate the configured processes.
    Cleanup,
    /// Save the scope.
    Persist,
    /// Report the end of the session.
    Ended,
    /// Ask for the reboot or the shutdown.
    Request,
    /// Nothing is left.
    Finished,
}

/// A finalization in progress. One timestamp holds for all of it: the clock
/// shift must not skew the reports.
#[derive(Debug)]
pub struct FinalizeRun {
    /// What is due next.
    pub stage: Stage,
    /// Why.
    pub reason: FinalizeReason,
    /// The time of every report.
    pub now_ms: i64,
    /// The study.
    pub study_id: StudyId,
    /// The session.
    pub session_id: u32,
    /// How many sessions the study has had, this one counted.
    pub session_count: usize,
}

/// What the host does next. Failures of single actions are logged by the host
/// and stop nothing.
#[derive(Debug)]
pub enum FinalizeAction {
    /// Publish.
    Publish(Channel, Envelope),
    /// Set the clock, and say in the next step whether that worked.
    ShiftClock(i64),
    /// Terminate processes by image name.
    KillProcesses(Vec<String>),
    /// Save the scope.
    Persist(ScopeState),
    /// The finalization is complete.
    Done,
}

impl SessionManagerDeps {
    /// Is the clock shifted at finalization?
    pub open spec fn shifts_clock(self) -> bool {
        !self.skip_time_manipulation && self.time.offset_secs != 0
    }

    /// The stage after the clock.
    pub open spec fn after_clock(self) -> Stage {
        if self.processes_to_terminate@.len() > 0 {
            Stage::Cleanup
        } else {
            Stage::Persist
        }
    }
}

/// The stage that acts now: the shift is reported only where it worked.
pub open spec fn due(deps: SessionManagerDeps, stage: Stage, shifted: bool) -> Stage {
    if stage is Adjusted && !shifted {
        deps.after_clock()
    } else {
        stage
    }
}

/// The stage after one that acted.
pub open spec fn stage_after(deps: SessionManagerDeps, stage: Stage) -> Stage {
    match stage {
        Stage::Score => Stage::Drops,
        Stage::Drops => Stage::Finalizing,
        Stage::Finalizing => if deps.shifts_clock() {
            Stage::Offset
        } else {
            deps.after_clock()
        },
        Stage::Offset => Stage::Adjusted,
        Stage::Adjusted => deps.after_clock(),
        Stage::Cleanup => Stage::Persist,
        Stage::Persist => Stage::Ended,
        Stage::Ended => if deps.skip_reboot_and_shutdown {
            Stage::Finished
        } else {
            Stage::Request
        },
        Stage::Request => Stage::Finished,
        Stage::Finished => Stage::Finished,
    }
}

/// Does the study end with this many sessions? An empty table never overruns;
/// otherwise the study shuts down exactly when the planned sessions are used up.
pub open spec fn study_over(uptimes: Seq<u64>, session_count: nat) -> bool {
    uptimes.len() > 0 && session_count >= uptimes.len()
}

/// A report of a finalization.
pub open spec fn final_report(run: FinalizeRun, seq: u64, data: Payload) -> Envelope {
    Envelope {
        v: PROTOCOL_VERSION,
        event_type: data.kind(),
        ts: run.now_ms,
        study: run.study_id,
        session: run.session_id,
        seq,
        data,
    }
}

/// The lowercased extension of a drop, empty where it has none.
pub open spec fn extension_key(path: Seq<char>) -> Seq<char> {
    match normal_extension(path_extension(path)) {
        Some(text) => text,
        None => Seq::empty(),
    }
}

/// The extensions of the current session's drops, one for each drop.
pub open spec fn drop_extensions(state: ScopeState) -> Seq<Seq<char>> {
    if state.sessions@.len() > 0 {
        state.sessions@.last().observed_drops.listed().map_values(
            |path: Seq<char>| extension_key(path),
        )
    } else {
        Seq::empty()
    }
}

/// Does an action publish this payload, as this run's next report?
pub open spec fn reports(
    action: FinalizeAction,
    channel: Channel,
    run: FinalizeRun,
    seq: u64,
) -> bool {
    action matches FinalizeAction::Publish(on, envelope) && on == channel && envelope == final_report(
        run,
        seq,
        envelope.data,
    )
}

/// What a stage of the finalization does.
pub open spec fn performs(
    plugin: SessionManagerPlugin,
    run: FinalizeRun,
    stage: Stage,
    state: ScopeState,
    seq: u64,
    action: FinalizeAction,
) -> bool {
    match stage {
        Stage::Score => reports(action, Channel::Event, run, seq) && (action->Publish_1.data matches
        Payload::StudyScore(data) && data.score == plugin.max_score && opt_view(data.reason) == Some(
            "Total"@,
        )),
        Stage::Drops => reports(action, Channel::Event, run, seq) && (action->Publish_1.data matches
        Payload::StudyDropsSummary(data) && is_tally(data.extensions@, drop_extensions(state))),
        Stage::Finalizing => action == FinalizeAction::Publish(
            Channel::Event,
            final_report(
                run,
                seq,
                Payload::SessionFinalizing(SessionFinalizingData { reason: run.reason }),
            ),
        ),
        Stage::Offset => action == FinalizeAction::ShiftClock(
            (run.now_ms + plugin.deps.time.offset_secs * 1000) as i64,
        ),
        Stage::Adjusted => action == FinalizeAction::Publish(
            Channel::Event,
            final_report(
                run,
                seq,
                Payload::ClockAdjusted(
                    ClockAdjustedData {
                        to_ts: (run.now_ms + plugin.deps.time.offset_secs * 1000) as i64,
                        offset_secs: plugin.deps.time.offset_secs,
                        cause: ClockCause::SessionOffset,
                    },
                ),
            ),
        ),
        Stage::Cleanup => action matches FinalizeAction::KillProcesses(names) && views(names@) == views(
            plugin.deps.processes_to_terminate@,
        ),
        Stage::Persist => action matches FinalizeAction::Persist(snapshot) && snapshot@ == state@
            && snapshot.wf(),
        Stage::Ended => action == FinalizeAction::Publish(
            Channel::Event,
            final_report(run, seq, Payload::SessionEnded(SessionEndedData {  })),
        ),
        Stage::Request => reports(action, Channel::Control, run, seq) && if study_over(
            plugin.deps.uptimes@,
            run.session_count as nat,
        ) {
            action->Publish_1.data matches Payload::StudyShutdownRequested(data) && opt_view(data.reason)
                == Some(run.reason.name())
        } else {
            action->Publish_1.data matches Payload::StudyRebootRequested(data) && opt_view(data.reason)
                == Some(run.reason.name())
        },
        Stage::Finished => action is Done,
    }
}

/// A process that ends with its session, unless it ended before.
pub open spec fn ended_process(process: ProcessModel, now_ms: i64) -> ProcessModel {
    if process.ended_at_ms is None {
        ProcessModel { ended_at_ms: Some(now_ms), ..process }
    } else {
        process
    }
}

/// A session that ends.
pub open spec fn ended_session(session: SessionModel, now_ms: i64) -> SessionModel {
    SessionModel {
        ended_at_ms: Some(now_ms),
        processes: session.processes.map_values(
            |process: ProcessModel| ended_process(process, now_ms),
        ),
        ..session
    }
}

/// What the pipeline asks of the host.
#[derive(Debug, Clone, Copy, PartialEq, Eq, Structural)]
pub enum PipelineAction {
    /// Nothing.
    Nothing,
    /// Finalize the session.
    Finalize(FinalizeReason),
    /// Save the scope.
    Persist,
}

/// How a session start begins: with the clock where the study's fake time is to
/// be set, with the agent's report otherwise.
pub open spec fn begins_start(
    plugin: SessionManagerPlugin,
    state: ScopeModel,
    now_ms: i64,
    run: Option<StartRun>,
) -> bool {
    match run {
        Some(run) => {
            &&& state.sessions.len() > 0
            &&& run.real_now_ms == now_ms
            &&& run.target_ms == start_time_ms(plugin.deps.time.timestamp)
            &&& run.stage == if sets_start_time(plugin.deps, state) {
                StartStage::Clock
            } else {
                StartStage::AgentState
            }
        },
        None => state.sessions.len() == 0,
    }
}

/// One step of a session start.
pub open spec fn starts(
    plugin: SessionManagerPlugin,
    run: StartRun,
    state: ScopeModel,
    seq: u64,
    now_ms: i64,
    clock_set: bool,
    action: StartAction,
    run_after: StartRun,
    seq_after: u64,
) -> bool {
    &&& start_performs(plugin, run, start_due(run.stage, clock_set), state, seq, now_ms, action)
    &&& run_after.stage == start_then(start_due(run.stage, clock_set))
    &&& run_after.real_now_ms == run.real_now_ms
    &&& run_after.target_ms == run.target_ms
    &&& seq_after == if action is Publish {
        following(seq)
    } else {
        seq
    }
}

/// What the plugin makes of a bus event: itself after it, and whether the session
/// is to be finalized.
pub open spec fn hears(
    before: SessionManagerPlugin,
    event: AgentBusEvent,
    after: SessionManagerPlugin,
    finalize: Option<FinalizeReason>,
) -> bool {
    &&& finalize == if event is ScopeDied && before.deps.autoshutdown {
        Some(FinalizeReason::DeadScope)
    } else {
        None
    }
    &&& after == SessionManagerPlugin {
        max_score: match event {
            AgentBusEvent::SessionScoreRaised { score } => if score > before.max_score {
                score
            } else {
                before.max_score
            },
            _ => before.max_score,
        },
        ..before
    }
}

/// What the plugin asks of its host at an event.
pub open spec fn asks(plugin: SessionManagerPlugin, event: SandboxEvent) -> PipelineAction {
    match event {
        SandboxEvent::SessionDeadline => PipelineAction::Finalize(FinalizeReason::Deadline),
        SandboxEvent::ServiceStop => PipelineAction::Finalize(FinalizeReason::InboundRequest),
        SandboxEvent::PersistTick => if plugin.finalized {
            PipelineAction::Nothing
        } else {
            PipelineAction::Persist
        },
        _ => PipelineAction::Nothing,
    }
}

/// How a finalization begins: once per boot, with the open session closed.
pub open spec fn begins_finalizing(
    before: SessionManagerPlugin,
    state: ScopeModel,
    now_ms: i64,
    reason: FinalizeReason,
    after: SessionManagerPlugin,
    state_after: ScopeModel,
    run: Option<FinalizeRun>,
) -> bool {
    &&& after == SessionManagerPlugin { finalized: true, ..before }
    &&& match run {
        Some(run) => {
            &&& !before.finalized
            &&& state.sessions.len() > 0
            &&& run == FinalizeRun {
                stage: Stage::Score,
                reason,
                now_ms,
                study_id: state.study_id,
                session_id: state.session_id(),
                session_count: state.sessions.len() as usize,
            }
            &&& state_after == state.with_current(ended_session(state.sessions.last(), now_ms))
        },
        None => {
            &&& before.finalized || state.sessions.len() == 0
            &&& state_after == state
        },
    }
}

/// One step of a finalization.
pub open spec fn finalizes(
    before: SessionManagerPlugin,
    run: FinalizeRun,
    state: ScopeState,
    seq: u64,
    shifted: bool,
    action: FinalizeAction,
    after: SessionManagerPlugin,
    run_after: FinalizeRun,
    seq_after: u64,
) -> bool {
    &&& performs(before, run, due(before.deps, run.stage, shifted), state, seq, action)
    &&& run_after == FinalizeRun {
        stage: stage_after(before.deps, due(before.deps, run.stage, shifted)),
        ..run
    }
    &&& after == SessionManagerPlugin {
        finalize_done: before.finalize_done || action is Done,
        ..before
    }
    &&& seq_after == if action is Publish {
        following(seq)
    } else {
        seq
    }
}

impl SessionManagerPlugin {
    /// Assemble the plugin.
    pub fn new(deps: SessionManagerDeps) -> (plugin: Self)
        ensures
            plugin == (SessionManagerPlugin {
                deps,
                finalized: false,
                finalize_done: false,
                max_score: 0,
            }),
    {
        SessionManagerPlugin { deps, finalized: false, finalize_done: false, max_score: 0 }
    }

    /// The boot hook: open the session.
    pub fn init(&self, state: &mut ScopeState, now_ms: i64)
        requires
            old(state).wf(),
        ensures
            final(state).wf(),
            final(state)@ == booted(old(state)@, self.deps.uptimes@, now_ms),
    {
        open_session_if_needed(&self.deps.uptimes, state, now_ms);
    }

    /// Start the session's reports; `None` = there is no session to start.
    pub fn start(&self, state: &ScopeState, now_ms: i64) -> (run: Option<StartRun>)
        requires
            state.wf(),
        ensures
            begins_start(*self, state@, now_ms, run),
    {
        if state.sessions.len() == 0 {
            return None;
        }
        let timestamp: u64 = self.deps.time.timestamp;
        let target_ms: i64 = if timestamp > i64::MAX as u64 {
            0
        } else if timestamp > (i64::MAX as u64) / 1000 {
            i64::MAX
        } else {
            (timestamp * 1000) as i64
        };
        let stage = if state.sessions.len() == 1 && !self.deps.skip_time_manipulation && timestamp != 0 {
            StartStage::Clock
        } else {
            StartStage::AgentState
        };
        Some(StartRun { stage, real_now_ms: now_ms, target_ms })
    }

    /// One step of a session start. `clock_set` says whether the clock could be
    /// set, where the last step asked for it; `now_ms` is the time of this step.
    pub fn start_step(
        &self,
        run: &mut StartRun,
        state: &ScopeState,
        seq: &mut u64,
        now_ms: i64,
        clock_set: bool,
    ) -> (action: StartAction)
        requires
            state.wf(),
            state@.sessions.len() > 0,
        ensures
            starts(
                *self,
                *old(run),
                state@,
                *old(seq),
                now_ms,
                clock_set,
                action,
                *final(run),
                *final(seq),
            ),
    {
        let stage = match run.stage {
            StartStage::ClockReport => if clock_set {
                StartStage::ClockReport
            } else {
                StartStage::AgentState
            },
            other => other,
        };
        match stage {
            StartStage::Clock => {
                run.stage = StartStage::ClockReport;
                StartAction::SetClock(run.target_ms)
            },
            StartStage::ClockReport => {
                run.stage = StartStage::AgentState;
                let data = ClockAdjustedData {
                    to_ts: run.target_ms,
                    offset_secs: seconds_between(run.real_now_ms, run.target_ms),
                    cause: ClockCause::StudyStart,
                };
                StartAction::Publish(
                    compose(
                        state,
                        seq,
                        run.target_ms,
                        EventType::ClockAdjusted,
                        Payload::ClockAdjusted(data),
                    ),
                )
            },
            StartStage::AgentState => {
                run.stage = StartStage::Started;
                let data = AgentStateData { agent_version: self.deps.agent_version.clone() };
                StartAction::Publish(
                    compose(state, seq, now_ms, EventType::AgentState, Payload::AgentState(data)),
                )
            },
            StartStage::Started => {
                run.stage = StartStage::Finished;
                let data = SessionStartedData {
                    scheduled_duration_secs: state.sessions[state.sessions.len()
                        - 1].scheduled_duration_secs,
                };
                StartAction::Publish(
                    compose(state, seq, now_ms, EventType::SessionStarted, Payload::SessionStarted(data)),
                )
            },
            StartStage::Finished => {
                run.stage = StartStage::Finished;
                StartAction::Done
            },
        }
    }

    /// Take in a bus event: score raises are remembered, a dead scope finalizes
    /// the session under `autoshutdown`.
    pub fn on_bus(&mut self, event: &AgentBusEvent) -> (finalize: Option<FinalizeReason>)
        ensures
            hears(*old(self), *event, *final(self), finalize),
    {
        match event {
            AgentBusEvent::ScopeDied => if self.deps.autoshutdown {
                Some(FinalizeReason::DeadScope)
            } else {
                None
            },
            AgentBusEvent::SessionScoreRaised { score } => {
                if *score > self.max_score {
                    self.max_score = *score;
                }
                None
            },
            _ => None,
        }
    }

    /// Take in a pipeline event.
    pub fn pre(&self, event: &SandboxEvent) -> (action: PipelineAction)
        ensures
            action == asks(*self, *event),
    {
        match event {
            SandboxEvent::SessionDeadline => PipelineAction::Finalize(FinalizeReason::Deadline),
            SandboxEvent::ServiceStop => PipelineAction::Finalize(FinalizeReason::InboundRequest),
            SandboxEvent::PersistTick => if self.finalized {
                PipelineAction::Nothing
            } else {
                PipelineAction::Persist
            },
            _ => PipelineAction::Nothing,
        }
    }

    /// Begin to finalize the current session (once per boot): the session and
    /// its live processes end now. `None` = there is nothing to do, because a
    /// finalization was begun before or no session is open.
    pub fn finalize_session(
        &mut self,
        state: &mut ScopeState,
        now_ms: i64,
        reason: FinalizeReason,
    ) -> (run: Option<FinalizeRun>)
        requires
            old(state).wf(),
        ensures
            final(state).wf(),
            begins_finalizing(
                *old(self),
                old(state)@,
                now_ms,
                reason,
                *final(self),
                final(state)@,
                run,
            ),
    {
        if self.finalized {
            return None;
        }
        self.finalized = true;
        let ghost before = *state;
        let count: usize = state.sessions.len();
        if count == 0 {
            return None;
        }
        end_session(&mut state.sessions[count - 1], now_ms);
        proof {
            assert(session_models(state.sessions@) =~= before@.with_current(
                ended_session(before@.sessions.last(), now_ms),
            ).sessions);
        }
        Some(
            FinalizeRun {
                stage: Stage::Score,
                reason,
                now_ms,
                study_id: state.study_id,
                session_id: state.session_id(),
                session_count: count,
            },
        )
    }

    /// One step of a finalization. `shifted` says whether the clock could be
    /// shifted, where the last step asked for it.
    pub fn finalize_step(
        &mut self,
        run: &mut FinalizeRun,
        state: &ScopeState,
        seq: &mut u64,
        shifted: bool,
    ) -> (action: FinalizeAction)
        requires
            state.wf(),
            old(self).deps.shifts_clock() ==> i64::MIN <= old(run).now_ms
                + old(self).deps.time.offset_secs * 1000 <= i64::MAX,
            old(run).stage is Offset || old(run).stage is Adjusted ==> old(self).deps.shifts_clock(),
        ensures
            finalizes(
                *old(self),
                *old(run),
                *state,
                *old(seq),
                shifted,
                action,
                *final(self),
                *final(run),
                *final(seq),
            ),
    {
        let after_clock = if self.deps.processes_to_terminate.len() > 0 {
            Stage::Cleanup
        } else {
            Stage::Persist
        };
        let stage = match run.stage {
            Stage::Adjusted => if shifted {
                Stage::Adjusted
            } else {
                after_clock
            },
            other => other,
        };
        match stage {
            Stage::Score => {
                run.stage = Stage::Drops;
                let data = StudyScoreData { score: self.max_score, reason: Some("Total".to_owned()) };
                publish(run, seq, Channel::Event, EventType::StudyScore, Payload::StudyScore(data))
            },
            Stage::Drops => {
                run.stage = Stage::Finalizing;
                let data = StudyDropsSummaryData { extensions: drops_histogram(state) };
                publish(
                    run,
                    seq,
                    Channel::Event,
                    EventType::StudyDropsSummary,
                    Payload::StudyDropsSummary(data),
                )
            },
            Stage::Finalizing => {
                run.stage = if !self.deps.skip_time_manipulation && self.deps.time.offset_secs != 0 {
                    Stage::Offset
                } else {
                    after_clock
                };
                let data = SessionFinalizingData { reason: run.reason };
                publish(
                    run,
                    seq,
                    Channel::Event,
                    EventType::SessionFinalizing,
                    Payload::SessionFinalizing(data),
                )
            },
            Stage::Offset => {
                run.stage = Stage::Adjusted;
                FinalizeAction::ShiftClock(shifted_time(run.now_ms, self.deps.time.offset_secs))
            },
            Stage::Adjusted => {
                run.stage = after_clock;
                let data = ClockAdjustedData {
                    to_ts: shifted_time(run.now_ms, self.deps.time.offset_secs),
                    offset_secs: self.deps.time.offset_secs,
                    cause: ClockCause::SessionOffset,
                };
                publish(
                    run,
                    seq,
                    Channel::Event,
                    EventType::ClockAdjusted,
                    Payload::ClockAdjusted(data),
                )
            },
            Stage::Cleanup => {
                run.stage = Stage::Persist;
                FinalizeAction::KillProcesses(copied(&self.deps.processes_to_terminate))
            },
            Stage::Persist => {
                run.stage = Stage::Ended;
                FinalizeAction::Persist(state.clone())
            },
            Stage::Ended => {
                run.stage = if self.deps.skip_reboot_and_shutdown {
                    Stage::Finished
                } else {
                    Stage::Request
                };
                publish(
                    run,
                    seq,
                    Channel::Event,
                    EventType::SessionEnded,
                    Payload::SessionEnded(SessionEndedData {  }),
                )
            },
            Stage::Request => {
                run.stage = Stage::Finished;
                let reason = Some(run.reason.as_str().to_owned());
                if self.deps.uptimes.len() > 0 && run.session_count >= self.deps.uptimes.len() {
                    publish(
                        run,
                        seq,
                        Channel::Control,
                        EventType::StudyShutdownRequested,
                        Payload::StudyShutdownRequested(StudyShutdownRequestedData { reason }),
                    )
                } else {
                    publish(
                        run,
                        seq,
                        Channel::Control,
                        EventType::StudyRebootRequested,
                        Payload::StudyRebootRequested(StudyRebootRequestedData { reason }),
                    )
                }
            },
            Stage::Finished => {
                run.stage = Stage::Finished;
                self.finalize_done = true;
                FinalizeAction::Done
            },
        }
    }
}

/// Publish one report of a finalization.
fn publish(
    run: &FinalizeRun,
    seq: &mut u64,
    channel: Channel,
    event_type: EventType,
    data: Payload,
) -> (action: FinalizeAction)
    requires
        event_type == data.kind(),
    ensures
        action == FinalizeAction::Publish(channel, final_report(*run, *old(seq), data)),
        *final(seq) == following(*old(seq)),
{
    let taken: u64 = next_seq(seq);
    FinalizeAction::Publish(
        channel,
        envelope_raw(run.now_ms, taken, run.study_id, run.session_id, event_type, data),
    )
}

/// Copies of the texts.
pub fn copied(texts: &Vec<String>) -> (copies: Vec<String>)
    ensures
        views(copies@) == views(texts@),
{
    let mut copies: Vec<String> = Vec::new();
    let mut at: usize = 0;
    while at < texts.len()
        invariant
            at <= texts@.len(),
            views(copies@) == views(texts@).take(at as int),
        decreases texts@.len() - at,
    {
        let ghost prior = views(copies@);
        copies.push(texts[at].clone());
        at = at + 1;
        proof {
            assert(views(copies@) =~= prior.push(views(texts@)[at - 1]));
            assert(views(copies@) =~= views(texts@).take(at as int));
        }
    }
    proof {
        assert(views(copies@) =~= views(texts@));
    }
    copies
}

/// The time that a number of seconds later (or earlier) is.
fn shifted_time(now_ms: i64, offset_secs: i64) -> (target: i64)
    requires
        i64::MIN <= now_ms + offset_secs * 1000 <= i64::MAX,
    ensures
        target == now_ms + offset_secs * 1000,
{
    let target: i128 = now_ms as i128 + offset_secs as i128 * 1000;
    target as i64
}

/// Whole seconds from one time to another, the fraction dropped.
fn seconds_between(from_ms: i64, to_ms: i64) -> (seconds: i64)
    ensures
        seconds == whole_seconds(to_ms - from_ms),
{
    if to_ms >= from_ms {
        let ahead: i128 = to_ms as i128 - from_ms as i128;
        let seconds: u128 = (ahead as u128) / 1000;
        seconds as i64
    } else {
        let behind: i128 = from_ms as i128 - to_ms as i128;
        let seconds: u128 = (behind as u128) / 1000;
        -(seconds as i64)
    }
}

/// End a session and its live processes.
fn end_session(session: &mut SessionRecord, now_ms: i64)
    ensures
        final(session)@ == ended_session(old(session)@, now_ms),
        final(session).observed_drops == old(session).observed_drops,
{
    let ghost before = process_models(session.scoped_processes@);
    let ghost fixed = *session;
    session.ended_at_ms = Some(now_ms);
    let count: usize = session.scoped_processes.len();
    let mut at: usize = 0;
    while at < count
        invariant
            at <= count,
            count == before.len(),
            count == session.scoped_processes@.len(),
            session.id == fixed.id,
            session.scheduled_duration_secs == fixed.scheduled_duration_secs,
            session.started_at_ms == fixed.started_at_ms,
            session.ended_at_ms == Some(now_ms),
            session.abandoned == fixed.abandoned,
            session.observed_drops == fixed.observed_drops,
            forall|i: int|
                0 <= i < at ==> (#[trigger] session.scoped_processes@[i])@ == ended_process(
                    before[i],
                    now_ms,
                ),
            forall|i: int|
                at <= i < count ==> (#[trigger] session.scoped_processes@[i])@ == before[i],
        decreases count - at,
    {
        if session.scoped_processes[at].ended_at_ms.is_none() {
            session.scoped_processes[at].ended_at_ms = Some(now_ms);
        }
        at = at + 1;
    }
    proof {
        assert(process_models(session.scoped_processes@) =~= before.map_values(
            |process: ProcessModel| ended_process(process, now_ms),
        ));
    }
}

/// Extension histogram over the session's observed drops (empty = extensionless).
pub fn drops_histogram(state: &ScopeState) -> (entries: Vec<(String, u32)>)
    ensures
        is_tally(entries@, drop_extensions(*state)),
{
    let mut extensions: Vec<String> = Vec::new();
    if state.sessions.len() > 0 {
        let session = &state.sessions[state.sessions.len() - 1];
        let ghost key = |path: Seq<char>| extension_key(path);
        let ghost listed = session.observed_drops.listed();
        let mut at: usize = 0;
        while at < session.observed_drops.len()
            invariant
                at <= listed.len(),
                listed == session.observed_drops.listed(),
                key == (|path: Seq<char>| extension_key(path)),
                views(extensions@) == listed.map_values(key).take(at as int),
            decreases listed.len() - at,
        {
            let ghost prior = views(extensions@);
            let path = session.observed_drops.get(at);
            let text = match extension(path.as_str()) {
                Some(found) => to_lowercase(found.as_str()),
                None => String::new(),
            };
            proof {
                assert(text@ =~= extension_key(listed[at as int]));
            }
            extensions.push(text);
            at = at + 1;
            proof {
                assert(views(extensions@) =~= prior.push(extension_key(listed[at - 1])));
                assert(views(extensions@) =~= listed.map_values(key).take(at as int));
            }
        }
        proof {
            assert(listed.map_values(key).take(listed.len() as int) =~= listed.map_values(key));
        }
    }
    proof {
        assert(views(extensions@) =~= drop_extensions(*state));
    }
    tally(&extensions)
}

// ---- Laws ----

/// The stages that act, from a given one on.
pub open spec fn walk(deps: SessionManagerDeps, stage: Stage, shifted: bool) -> Seq<Stage>
    decreases stages_left(stage),
{
    let now = due(deps, stage, shifted);
    if now is Finished {
        Seq::empty()
    } else {
        seq![now] + walk(deps, stage_after(deps, now), shifted)
    }
}

/// How many stages can still follow.
pub open spec fn stages_left(stage: Stage) -> nat {
    match stage {
        Stage::Score => 9,
        Stage::Drops => 8,
        Stage::Finalizing => 7,
        Stage::Offset => 6,
        Stage::Adjusted => 5,
        Stage::Cleanup => 4,
        Stage::Persist => 3,
        Stage::Ended => 2,
        Stage::Request => 1,
        Stage::Finished => 0,
    }
}

/// The documented order of a finalization.
pub open spec fn agenda(deps: SessionManagerDeps, shifted: bool) -> Seq<Stage> {
    seq![Stage::Score, Stage::Drops, Stage::Finalizing] + (if deps.shifts_clock() {
        if shifted {
            seq![Stage::Offset, Stage::Adjusted]
        } else {
            seq![Stage::Offset]
        }
    } else {
        Seq::empty()
    }) + (if deps.processes_to_terminate@.len() > 0 {
        seq![Stage::Cleanup]
    } else {
        Seq::empty()
    }) + seq![Stage::Persist, Stage::Ended] + (if deps.skip_reboot_and_shutdown {
        Seq::empty()
    } else {
        seq![Stage::Request]
    })
}

/// A finalization goes through its stages in the documented order, each at most
/// once, and comes to an end: reports, announcement, clock offset, cleanup,
/// persist, end, request. What is switched off is left out, and nothing else.
pub proof fn law_finalization_follows_the_agenda(deps: SessionManagerDeps, shifted: bool)
    ensures
        walk(deps, Stage::Score, shifted) == agenda(deps, shifted),
{
    reveal_with_fuel(walk, 11);
    assert(walk(deps, Stage::Score, shifted) =~= agenda(deps, shifted));
}

/// The scope is saved before the session's end is reported and before anything
/// is asked of the Controller, whatever is switched off.
pub proof fn law_scope_is_saved_before_the_request(deps: SessionManagerDeps, shifted: bool)
    ensures
        exists|at: int|
            0 <= at < walk(deps, Stage::Score, shifted).len() && #[trigger] walk(
                deps,
                Stage::Score,
                shifted,
            )[at] is Persist && forall|i: int|
                0 <= i < walk(deps, Stage::Score, shifted).len() && (#[trigger] walk(
                    deps,
                    Stage::Score,
                    shifted,
                )[i] is Ended || walk(deps, Stage::Score, shifted)[i] is Request) ==> at < i,
{
    law_finalization_follows_the_agenda(deps, shifted);
    let steps = walk(deps, Stage::Score, shifted);
    let front = if deps.shifts_clock() {
        if shifted {
            5int
        } else {
            4int
        }
    } else {
        3int
    };
    let at = if deps.processes_to_terminate@.len() > 0 {
        front + 1
    } else {
        front
    };
    assert(steps[at] is Persist);
}

/// The debug switch that forbids clock manipulation leaves the clock alone.
pub proof fn law_skipped_time_is_left_alone(deps: SessionManagerDeps, shifted: bool, at: int)
    requires
        deps.skip_time_manipulation,
        0 <= at < walk(deps, Stage::Score, shifted).len(),
    ensures
        !(walk(deps, Stage::Score, shifted)[at] is Offset),
        !(walk(deps, Stage::Score, shifted)[at] is Adjusted),
{
    law_finalization_follows_the_agenda(deps, shifted);
}

/// After a finalization nothing in the session is left open.
pub proof fn law_finalized_session_is_closed(state: ScopeModel, now_ms: i64)
    requires
        state.sessions.len() > 0,
    ensures
        ({
            let after = state.with_current(ended_session(state.sessions.last(), now_ms));
            &&& after.sessions.last().ended_at_ms is Some
            &&& forall|i: int|
                0 <= i < after.sessions.last().processes.len() ==> (
                #[trigger] after.sessions.last().processes[i]).ended_at_ms is Some
            &&& after.sessions.len() == state.sessions.len()
            &&& after.sessions.drop_last() == state.sessions.drop_last()
            &&& only_last_open(state) ==> leftover_closed(after, now_ms) == after
        }),
{
    let after = state.with_current(ended_session(state.sessions.last(), now_ms));
    assert(after.sessions.drop_last() =~= state.sessions.drop_last());
}

} // verus!
