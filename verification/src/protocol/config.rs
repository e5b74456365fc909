//! The agent's configuration.

use vstd::prelude::*;

verus! {

/// The whole configuration.
#[derive(Debug, PartialEq, Eq)]
pub struct AgentConfig {
    /// The sample.
    pub target: TargetConfig,
    /// The study's plan.
    pub study: StudyConfig,
    /// Time manipulation.
    pub time: TimeConfig,
    /// Debug switches.
    pub debug: DebugConfig,
    /// Drop collection.
    pub drops: DropsConfig,
    /// Screenshots.
    pub screenshots: ScreenshotsConfig,
    /// Scoring weights.
    pub scoring: ScoringConfig,
    /// Wire output.
    pub broker: BrokerConfig,
    /// Host specifics.
    pub platform: PlatformConfig,
    /// The user actor.
    pub user_actor: UserActorSettings,
    /// Diagnostics egress.
    pub telemetry: TelemetryConfig,
}

/// `[target]`.
#[derive(Debug, PartialEq, Eq)]
pub struct TargetConfig {
    /// Path of the sample.
    pub path: String,
    /// Arguments for the sample.
    pub args: Vec<String>,
    /// Detonate in every session, not only in session 0.
    pub every_session: bool,
}

/// `[study]`.
#[derive(Debug, PartialEq, Eq)]
pub struct StudyConfig {
    /// Planned session durations, seconds; empty = dynamic.
    pub uptimes: Vec<u64>,
    /// Finalize early when the scope dies.
    pub autoshutdown: bool,
    /// Image names that finalization terminates.
    pub processes_to_terminate: Vec<String>,
    /// Where the scope database is kept.
    pub scope_path: String,
}

/// `[time]`.
#[derive(Debug, Clone, Copy, PartialEq, Eq, Structural)]
pub struct TimeConfig {
    /// Fake time at study start, unix seconds; 0 = leave the clock alone.
    pub timestamp: u64,
    /// Seconds added to the clock at each finalization; 0 = none.
    pub offset_secs: i64,
}

/// `[debug]`.
#[derive(Debug, Clone, Copy, PartialEq, Eq, Structural)]
pub struct DebugConfig {
    /// Leave the clock alone.
    pub skip_time_manipulation: bool,
    /// Request neither reboot nor shutdown.
    pub skip_reboot_and_shutdown: bool,
}

/// `[drops]`.
#[derive(Debug, PartialEq, Eq)]
pub struct DropsConfig {
    /// Directory for collected drops.
    pub path: String,
    /// Extension filter.
    pub extensions: Vec<String>,
    /// Largest drop that is collected, bytes.
    pub max_size: u64,
    /// Largest number of drops collected per session.
    pub limit_per_session: u32,
    /// Where collected drops are uploaded; `None` = nowhere.
    pub upload_uri: Option<String>,
}

/// `[screenshots]`.
#[derive(Debug, PartialEq, Eq)]
pub struct ScreenshotsConfig {
    /// Directory for saved screenshots.
    pub path: String,
    /// Keep screenshots on disk.
    pub save: bool,
    /// Largest number of screenshots accepted per session.
    pub max_per_session: u32,
    /// Where screenshots are uploaded; `None` = nowhere.
    pub upload_uri: Option<String>,
}

/// `[scoring]`.
#[derive(Debug, Clone, Copy, PartialEq, Eq, Structural)]
pub struct ScoringConfig {
    /// Score for a CLI/interpreter entering the scope.
    pub cli_started: u32,
    /// Score for an observed drop.
    pub drop_observed: u32,
}

/// `[broker]`.
#[derive(Debug, PartialEq, Eq)]
pub struct BrokerConfig {
    /// Broker address.
    pub uri: String,
    /// Subject of the control channel.
    pub control_channel: String,
    /// Subject of the event channel.
    pub event_channel: String,
    /// How much source telemetry is forwarded.
    pub verbosity: EventVerbosity,
}

/// How much source telemetry is forwarded.
#[derive(Debug, Clone, Copy, PartialEq, Eq, Structural)]
pub enum EventVerbosity {
    /// None of it (configured as `none`).
    Silent,
    /// Reserved for scope-relevant forwarding.
    Partial,
    /// All of it.
    Full,
}

/// `[platform]`.
#[derive(Debug, PartialEq, Eq)]
pub struct PlatformConfig {
    /// Marker process of the interactive session.
    pub non_s0_process: String,
    /// How processes are launched into the interactive session.
    pub launch_mechanism: LaunchMechanism,
    /// Helper of the scheduled-task mechanism.
    pub runas_utility_path: String,
}

/// How processes are launched into the interactive session.
#[derive(Debug, Clone, Copy, PartialEq, Eq, Structural)]
pub enum LaunchMechanism {
    /// With the session user's token.
    Token,
    /// Through a scheduled task.
    SchedTask,
}

/// `[user_actor]`.
#[derive(Debug, Clone, Copy, PartialEq, Eq, Structural)]
pub struct UserActorSettings {
    /// Screenshots are taken.
    pub screencapture: bool,
}

/// `[telemetry]`.
#[derive(Debug, PartialEq, Eq)]
pub struct TelemetryConfig {
    /// Diagnostics leave the VM.
    pub sentry_enabled: bool,
    /// Where to.
    pub dsn: String,
}

/// Is this the configuration of a file that sets nothing?
pub open spec fn is_default(config: AgentConfig) -> bool {
    &&& config.target.path@.len() == 0
    &&& config.target.args@.len() == 0
    &&& !config.target.every_session
    &&& config.study.uptimes@.len() == 0
    &&& !config.study.autoshutdown
    &&& config.study.processes_to_terminate@.len() == 0
    &&& config.study.scope_path@ == "scope.json"@
    &&& config.time == (TimeConfig { timestamp: 0, offset_secs: 0 })
    &&& config.debug == (DebugConfig {
        skip_time_manipulation: false,
        skip_reboot_and_shutdown: false,
    })
    &&& config.drops.path@ == "drops"@
    &&& config.drops.extensions@.len() == 0
    &&& config.drops.max_size == 104_857_600
    &&& config.drops.limit_per_session == 1000
    &&& config.drops.upload_uri is None
    &&& config.screenshots.path@ == "screenshots"@
    &&& config.screenshots.save
    &&& config.screenshots.max_per_session == 1000
    &&& config.screenshots.upload_uri is None
    &&& config.scoring == (ScoringConfig { cli_started: 10, drop_observed: 5 })
    &&& config.broker.uri@ == "nats://127.0.0.1:4222"@
    &&& config.broker.control_channel@ == "control"@
    &&& config.broker.event_channel@ == "events"@
    &&& config.broker.verbosity == EventVerbosity::Full
    &&& config.platform.non_s0_process@ == "explorer"@
    &&& config.platform.launch_mechanism == LaunchMechanism::Token
    &&& config.platform.runas_utility_path@.len() == 0
    &&& config.user_actor == (UserActorSettings { screencapture: true })
    &&& !config.telemetry.sentry_enabled
    &&& config.telemetry.dsn@.len() == 0
}

impl Default for AgentConfig {
    fn default() -> (config: Self)
        ensures
            is_default(config),
    {
        AgentConfig {
            target: TargetConfig { path: String::new(), args: Vec::new(), every_session: false },
            study: StudyConfig {
                uptimes: Vec::new(),
                autoshutdown: false,
                processes_to_terminate: Vec::new(),
                scope_path: "scope.json".to_owned(),
            },
            time: TimeConfig { timestamp: 0, offset_secs: 0 },
            debug: DebugConfig { skip_time_manipulation: false, skip_reboot_and_shutdown: false },
            drops: DropsConfig {
                path: "drops".to_owned(),
                extensions: Vec::new(),
                max_size: 104_857_600,
                limit_per_session: 1000,
                upload_uri: None,
            },
            screenshots: ScreenshotsConfig {
                path: "screenshots".to_owned(),
                save: true,
                max_per_session: 1000,
                upload_uri: None,
            },
            scoring: ScoringConfig { cli_started: 10, drop_observed: 5 },
            broker: BrokerConfig {
                uri: "nats://127.0.0.1:4222".to_owned(),
                control_channel: "control".to_owned(),
                event_channel: "events".to_owned(),
                verbosity: EventVerbosity::Full,
            },
            platform: PlatformConfig {
                non_s0_process: "explorer".to_owned(),
                launch_mechanism: LaunchMechanism::Token,
                runas_utility_path: String::new(),
            },
            user_actor: UserActorSettings { screencapture: true },
            telemetry: TelemetryConfig { sentry_enabled: false, dsn: String::new() },
        }
    }
}

} // verus!
