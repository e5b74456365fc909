//! Composition: the plugins that a configuration asks for, and their order.

use vstd::prelude::*;

use crate::domain::drop_filter::{normal_token, token_rules, DropFilter};
use crate::domain::image_name::{file_name_of, path_file_name};
use crate::domain::scope::{ScopeModel, ScopeState, TrackerModel};
use crate::domain::study_id::{is_random, StudyId};
use crate::plugins::drops_collector::DropsCollectorPlugin;
use crate::plugins::event_reporter::EventReporterPlugin;
use crate::plugins::scope_tracker::ScopeTrackerPlugin;
use crate::plugins::scoring::ScoringPlugin;
use crate::plugins::screenshot_intake::ScreenshotIntakePlugin;
use crate::plugins::session_manager::{
    agenda, law_finalization_follows_the_agenda, sets_start_time, walk, SessionManagerDeps,
    SessionManagerPlugin, Stage,
};
use crate::plugins::statistics::{SessionStatistics, StatisticsPlugin};
use crate::plugins::target_launcher::{TargetLauncherDeps, TargetLauncherPlugin};
use crate::protocol::config::{AgentConfig, DebugConfig, StudyConfig, TargetConfig};
use crate::text::{lowercase, to_lowercase, views};

verus! {

/// The id of a study at a boot: its own, or a fresh one where it has none yet.
pub open spec fn boot_study_id(id: StudyId, fresh: StudyId) -> StudyId {
    if id.bits == 0 {
        fresh
    } else {
        id
    }
}

/// Scope state for a boot, from what the repository loaded: a study that has no id
/// yet is given this one.
pub fn with_study_id(state: ScopeState, fresh: StudyId) -> (ready: ScopeState)
    ensures
        state.wf() ==> ready.wf(),
        ready@ == (ScopeModel {
            study_id: boot_study_id(state.study_id, fresh),
            ..state@
        }),
{
    let mut ready = state;
    if ready.study_id.is_nil() {
        ready.study_id = fresh;
    }
    ready
}

/// Scope state for a boot, from what the repository loaded: a fresh study id is
/// assigned on the first boot (nil id = no study yet), and kept ever after.
pub fn load_scope_state(state: ScopeState) -> (ready: ScopeState)
    ensures
        state.wf() ==> ready.wf(),
        ready@.sessions == state@.sessions,
        ready.study_id.bits != 0,
        if state.study_id.bits == 0 {
            is_random(ready.study_id.bits)
        } else {
            ready.study_id == state.study_id
        },
{
    with_study_id(state, StudyId::random())
}

/// The target's image name: the last component of the configured path, lowercased.
pub open spec fn target_name(path: Seq<char>) -> Seq<char> {
    match path_file_name(path) {
        Some(name) => lowercase(name),
        None => lowercase(path),
    }
}

/// Target image name derived from the configured path (last path component).
pub fn target_image_name(config: &AgentConfig) -> (name: String)
    ensures
        name@ == target_name(config.target.path@),
{
    match file_name_of(config.target.path.as_str()) {
        Some(name) => to_lowercase(name.as_str()),
        None => to_lowercase(config.target.path.as_str()),
    }
}

/// The plugins of an agent.
#[derive(Debug)]
pub struct AgentPlugins {
    /// Session lifecycle.
    pub session_manager: SessionManagerPlugin,
    /// Scope membership and drops.
    pub tracker: ScopeTrackerPlugin,
    /// Source telemetry and derived reports.
    pub reporter: EventReporterPlugin,
    /// Drop collection.
    pub drops_collector: DropsCollectorPlugin,
    /// Screenshots.
    pub screenshot_intake: ScreenshotIntakePlugin,
    /// Detonation.
    pub target_launcher: TargetLauncherPlugin,
    /// Scores.
    pub scoring: ScoringPlugin,
    /// Counters.
    pub statistics: StatisticsPlugin,
}

/// What the session manager goes by under a configuration.
pub open spec fn manager_deps(config: AgentConfig, agent_version: String) -> SessionManagerDeps {
    SessionManagerDeps {
        processes_to_terminate: config.study.processes_to_terminate,
        uptimes: config.study.uptimes,
        autoshutdown: config.study.autoshutdown,
        time: config.time,
        skip_time_manipulation: config.debug.skip_time_manipulation,
        skip_reboot_and_shutdown: config.debug.skip_reboot_and_shutdown,
        agent_version,
    }
}

/// Are these the plugins of a configuration, as they are before the boot?
pub open spec fn assembled(
    config: AgentConfig,
    agent_version: String,
    statistics: SessionStatistics,
    plugins: AgentPlugins,
) -> bool {
    &&& plugins.session_manager == (SessionManagerPlugin {
        deps: manager_deps(config, agent_version),
        finalized: false,
        finalize_done: false,
        max_score: 0,
    })
    &&& plugins.tracker.wf()
    &&& plugins.tracker.target() == target_name(config.target.path@)
    &&& plugins.tracker.seeds_always() == config.target.every_session
    &&& plugins.tracker.rules() == token_rules(
        views(config.drops.extensions@).map_values(|raw: Seq<char>| normal_token(raw)),
    )
    &&& plugins.tracker.memory() == (TrackerModel { expected: Seq::empty(), closed: Set::empty() })
    &&& plugins.reporter.verbosity == config.broker.verbosity
    &&& plugins.drops_collector.wf()
    &&& plugins.drops_collector.config == config.drops
    &&& plugins.drops_collector.seen_hashes@ == Set::<Seq<char>>::empty()
    &&& plugins.drops_collector.collected == 0
    &&& plugins.drops_collector.name_seq == 0
    &&& plugins.drops_collector.phase is Idle
    &&& plugins.screenshot_intake == (ScreenshotIntakePlugin {
        config: config.screenshots,
        capture_enabled: config.user_actor.screencapture,
        accepted: 0,
    })
    &&& plugins.target_launcher == (TargetLauncherPlugin {
        deps: TargetLauncherDeps {
            target: config.target,
            marker: config.platform.non_s0_process,
            launch_mechanism: config.platform.launch_mechanism,
        },
        attempted: false,
    })
    &&& plugins.scoring.weights().cli_started == config.scoring.cli_started
    &&& plugins.scoring.weights().drop_observed == config.scoring.drop_observed
    &&& plugins.scoring.score() == 0
    &&& plugins.statistics.stats == statistics
}

/// Assemble the plugins of a configuration.
pub fn assemble(config: AgentConfig, agent_version: String, statistics: SessionStatistics) -> (plugins: AgentPlugins)
    ensures
        assembled(config, agent_version, statistics, plugins),
{
    let target = target_image_name(&config);
    let tracker = ScopeTrackerPlugin::new(
        target,
        config.target.every_session,
        DropFilter::new(config.drops.extensions.as_slice()),
    );
    let scoring = ScoringPlugin::new(&config.scoring);
    let session_manager = SessionManagerPlugin::new(
        SessionManagerDeps {
            processes_to_terminate: config.study.processes_to_terminate,
            uptimes: config.study.uptimes,
            autoshutdown: config.study.autoshutdown,
            time: config.time,
            skip_time_manipulation: config.debug.skip_time_manipulation,
            skip_reboot_and_shutdown: config.debug.skip_reboot_and_shutdown,
            agent_version,
        },
    );
    AgentPlugins {
        session_manager,
        tracker,
        reporter: EventReporterPlugin::new(config.broker.verbosity),
        drops_collector: DropsCollectorPlugin::new(config.drops),
        screenshot_intake: ScreenshotIntakePlugin::new(
            config.screenshots,
            config.user_actor.screencapture,
        ),
        target_launcher: TargetLauncherPlugin::new(
            TargetLauncherDeps {
                target: config.target,
                marker: config.platform.non_s0_process,
                launch_mechanism: config.platform.launch_mechanism,
            },
        ),
        scoring,
        statistics: StatisticsPlugin::new(statistics),
    }
}

/// The plugins by name.
#[derive(Debug, Clone, Copy, PartialEq, Eq, Structural)]
pub enum PluginName {
    /// Session lifecycle.
    SessionManager,
    /// Scope membership and drops.
    Tracker,
    /// Source telemetry and derived reports.
    Reporter,
    /// Drop collection.
    DropsCollector,
    /// Screenshots.
    ScreenshotIntake,
    /// Detonation.
    TargetLauncher,
    /// The user actor's supervision.
    Supervisor,
    /// Scores.
    Scoring,
    /// Counters.
    Statistics,
}

/// The order in which plugins boot and start.
pub open spec fn lifecycle_names() -> Seq<PluginName> {
    seq![
        PluginName::SessionManager,
        PluginName::Tracker,
        PluginName::Reporter,
        PluginName::DropsCollector,
        PluginName::ScreenshotIntake,
        PluginName::TargetLauncher,
        PluginName::Supervisor,
        PluginName::Scoring,
        PluginName::Statistics,
    ]
}

/// The order in which an inbound event passes the plugins that take part in the
/// pipeline.
pub open spec fn pipeline_names() -> Seq<PluginName> {
    seq![
        PluginName::SessionManager,
        PluginName::Tracker,
        PluginName::Reporter,
        PluginName::ScreenshotIntake,
        PluginName::TargetLauncher,
        PluginName::Supervisor,
        PluginName::Statistics,
    ]
}

/// The order in which plugins boot and start: the session manager opens the
/// session before the tracker seeds it.
pub fn lifecycle_order() -> (names: Vec<PluginName>)
    ensures
        names@ == lifecycle_names(),
{
    let names = vec![
        PluginName::SessionManager,
        PluginName::Tracker,
        PluginName::Reporter,
        PluginName::DropsCollector,
        PluginName::ScreenshotIntake,
        PluginName::TargetLauncher,
        PluginName::Supervisor,
        PluginName::Scoring,
        PluginName::Statistics,
    ];
    proof {
        assert(names@ =~= lifecycle_names());
    }
    names
}

/// The order in which an inbound event passes the plugins.
pub fn pipeline_order() -> (names: Vec<PluginName>)
    ensures
        names@ == pipeline_names(),
{
    let names = vec![
        PluginName::SessionManager,
        PluginName::Tracker,
        PluginName::Reporter,
        PluginName::ScreenshotIntake,
        PluginName::TargetLauncher,
        PluginName::Supervisor,
        PluginName::Statistics,
    ];
    proof {
        assert(names@ =~= pipeline_names());
    }
    names
}

/// The pipeline runs through plugins that boot, in the order in which they boot.
pub proof fn law_the_pipeline_keeps_the_boot_order(earlier: int, later: int)
    requires
        0 <= earlier < later < pipeline_names().len(),
    ensures
        exists|i: int, j: int|
            0 <= i < j < lifecycle_names().len() && #[trigger] lifecycle_names()[i]
                == pipeline_names()[earlier] && #[trigger] lifecycle_names()[j] == pipeline_names()[later],
{
    let place = |at: int|
        if at <= 2 {
            at
        } else if at <= 5 {
            at + 1
        } else {
            8int
        };
    assert(lifecycle_names()[place(earlier)] == pipeline_names()[earlier]);
    assert(lifecycle_names()[place(later)] == pipeline_names()[later]);
}

/// A study keeps its id: once a boot has given it one, no later boot changes it.
pub proof fn law_study_ids_are_stable(id: StudyId, first: StudyId, second: StudyId)
    requires
        first.bits != 0,
    ensures
        boot_study_id(id, first).bits != 0,
        boot_study_id(boot_study_id(id, first), second) == boot_study_id(id, first),
{
}

// ---- Local runs ----

/// Is this a configuration that leaves the host alone: no clock manipulation, no
/// process cleanup, no reboot or shutdown request?
pub open spec fn is_harmless(config: AgentConfig) -> bool {
    &&& config.debug.skip_time_manipulation
    &&& config.debug.skip_reboot_and_shutdown
    &&& config.study.processes_to_terminate@.len() == 0
}

/// Is this the configuration for a run on a local machine: harmless, with the
/// target that was given, and otherwise as configured?
pub open spec fn localized(config: AgentConfig, target: Option<String>, local: AgentConfig) -> bool {
    &&& is_harmless(local)
    &&& local == AgentConfig {
        target: TargetConfig {
            path: match target {
                Some(path) => path,
                None => config.target.path,
            },
            ..config.target
        },
        study: StudyConfig {
            processes_to_terminate: local.study.processes_to_terminate,
            ..config.study
        },
        debug: local.debug,
        ..config
    }
}

/// The configuration of a local run: whatever was configured, it leaves the host
/// alone. A target given on the command line replaces the configured one.
pub fn local_config(config: AgentConfig, target: Option<String>) -> (local: AgentConfig)
    ensures
        localized(config, target, local),
{
    let path = match target {
        Some(path) => path,
        None => config.target.path,
    };
    AgentConfig {
        target: TargetConfig {
            path,
            args: config.target.args,
            every_session: config.target.every_session,
        },
        study: StudyConfig {
            uptimes: config.study.uptimes,
            autoshutdown: config.study.autoshutdown,
            processes_to_terminate: Vec::new(),
            scope_path: config.study.scope_path,
        },
        time: config.time,
        debug: DebugConfig { skip_time_manipulation: true, skip_reboot_and_shutdown: true },
        drops: config.drops,
        screenshots: config.screenshots,
        scoring: config.scoring,
        broker: config.broker,
        platform: config.platform,
        user_actor: config.user_actor,
        telemetry: config.telemetry,
    }
}

/// A harmless configuration never shifts the clock, neither at the start of a
/// session nor at its end, never terminates a process and never requests a reboot
/// or a shutdown; it still saves the scope and reports the end of the session.
pub proof fn law_harmless_runs_leave_the_host_alone(
    config: AgentConfig,
    agent_version: String,
    state: ScopeModel,
    shifted: bool,
)
    requires
        is_harmless(config),
    ensures
        !sets_start_time(manager_deps(config, agent_version), state),
        walk(manager_deps(config, agent_version), Stage::Score, shifted) == seq![
            Stage::Score,
            Stage::Drops,
            Stage::Finalizing,
            Stage::Persist,
            Stage::Ended,
        ],
{
    let deps = manager_deps(config, agent_version);
    law_finalization_follows_the_agenda(deps, shifted);
    assert(agenda(deps, shifted) =~= seq![
        Stage::Score,
        Stage::Drops,
        Stage::Finalizing,
        Stage::Persist,
        Stage::Ended,
    ]);
}

} // verus!
