//! What the assembled agent keeps of its configuration.

use vstd::prelude::*;

use crate::app::builder::{assembled, boot_study_id, localized, target_name, AgentPlugins};
use crate::app::event::SandboxEvent;
use crate::app::runtime::{answers, HostAction, HostEvent};
use crate::domain::drop_filter::{normal_token, passes};
use crate::domain::drop_laws::{law_some_token_decides, token_passes};
use crate::domain::image_name::{divides, is_verbatim, path_file_name, prefix_len};
use crate::domain::path_laws::law_the_file_name_follows_the_last_divider;
use crate::domain::study_id::StudyId;
use crate::plugins::statistics::SessionStatistics;
use crate::protocol::config::AgentConfig;
use crate::text::{lowercase, views};

verus! {

/// The plugins work from one configuration: what one launches the other expects;
/// what passes for a drop is what some configured token lets pass; every limit,
/// duration, weight and switch is the configured one.
pub proof fn law_the_plugins_share_one_configuration(
    config: AgentConfig,
    agent_version: String,
    statistics: SessionStatistics,
    plugins: AgentPlugins,
    extension: Option<Seq<char>>,
)
    requires
        assembled(config, agent_version, statistics, plugins),
    ensures
        plugins.target_launcher.deps.target == config.target,
        plugins.tracker.seeds_always() == plugins.target_launcher.deps.target.every_session,
        plugins.tracker.target() == target_name(plugins.target_launcher.deps.target.path@),
        passes(plugins.tracker.rules(), extension) <==> exists|i: int|
            0 <= i < config.drops.extensions@.len() && token_passes(
                normal_token((#[trigger] config.drops.extensions@[i])@),
                extension,
            ),
        plugins.target_launcher.deps.marker@ == config.platform.non_s0_process@,
        plugins.target_launcher.deps.launch_mechanism == config.platform.launch_mechanism,
        plugins.session_manager.deps.uptimes == config.study.uptimes,
        plugins.session_manager.deps.autoshutdown == config.study.autoshutdown,
        plugins.session_manager.deps.processes_to_terminate == config.study.processes_to_terminate,
        plugins.session_manager.deps.time == config.time,
        plugins.session_manager.deps.skip_time_manipulation == config.debug.skip_time_manipulation,
        plugins.session_manager.deps.skip_reboot_and_shutdown
            == config.debug.skip_reboot_and_shutdown,
        plugins.session_manager.deps.agent_version@ == agent_version@,
        plugins.drops_collector.config.max_size == config.drops.max_size,
        plugins.drops_collector.config.limit_per_session == config.drops.limit_per_session,
        plugins.screenshot_intake.config == config.screenshots,
        plugins.screenshot_intake.capture_enabled == config.user_actor.screencapture,
        plugins.scoring.weights().cli_started == config.scoring.cli_started,
        plugins.scoring.weights().drop_observed == config.scoring.drop_observed,
        plugins.reporter.verbosity == config.broker.verbosity,
{
    let tokens = views(config.drops.extensions@).map_values(|raw: Seq<char>| normal_token(raw));
    law_some_token_decides(tokens, extension);
    if passes(plugins.tracker.rules(), extension) {
        let i = choose|i: int| 0 <= i < tokens.len() && token_passes(#[trigger] tokens[i], extension);
        assert(tokens[i] == normal_token(config.drops.extensions@[i]@));
    }
    if exists|i: int|
        0 <= i < config.drops.extensions@.len() && token_passes(
            normal_token((#[trigger] config.drops.extensions@[i])@),
            extension,
        ) {
        let i = choose|i: int|
            0 <= i < config.drops.extensions@.len() && token_passes(
                normal_token((#[trigger] config.drops.extensions@[i])@),
                extension,
            );
        assert(tokens[i] == normal_token(config.drops.extensions@[i]@));
        assert(token_passes(tokens[i], extension));
    }
}

/// Nothing has happened before the boot: no score, no drop, no frame, no launch,
/// no expectation, no finalization.
pub proof fn law_an_assembled_agent_is_fresh(
    config: AgentConfig,
    agent_version: String,
    statistics: SessionStatistics,
    plugins: AgentPlugins,
    name: Seq<char>,
)
    requires
        assembled(config, agent_version, statistics, plugins),
    ensures
        plugins.session_manager.max_score == 0,
        plugins.scoring.score() == 0,
        !plugins.session_manager.finalized,
        !plugins.session_manager.finalize_done,
        !plugins.target_launcher.attempted,
        plugins.drops_collector.collected == 0,
        !plugins.drops_collector.seen_hashes@.contains(name),
        plugins.screenshot_intake.accepted == 0,
        !plugins.tracker.memory().expected.contains(name),
        !plugins.tracker.memory().closed.contains(name),
        plugins.statistics.stats == statistics,
{
}

/// The expected image is the file that the target's path names, in lower case.
pub proof fn law_the_expected_image_is_the_target_file(
    head: Seq<char>,
    divider: char,
    name: Seq<char>,
)
    requires
        ({
            let path = head.push(divider) + name;
            &&& prefix_len(path) <= head.len()
            &&& divides(is_verbatim(path), divider)
        }),
        name.len() > 0,
        forall|i: int| 0 <= i < name.len() ==> #[trigger] name[i] != '/' && name[i] != '\\',
        name != seq!['.'],
        name != seq!['.', '.'],
    ensures
        target_name(head.push(divider) + name) == lowercase(name),
{
    law_the_file_name_follows_the_last_divider(head, divider, name);
}

/// A target path that names no file is expected as it stands, in lower case.
pub proof fn law_a_nameless_target_is_expected_as_it_stands(path: Seq<char>)
    requires
        path_file_name(path) is None,
    ensures
        target_name(path) == lowercase(path),
{
}

/// A study keeps the id that it has, and takes the fresh one only where it has
/// none.
pub proof fn law_a_study_keeps_its_id(id: StudyId, fresh: StudyId)
    ensures
        id.bits != 0 ==> boot_study_id(id, fresh) == id,
        id.bits == 0 ==> boot_study_id(id, fresh) == fresh,
{
}

/// A local run launches the target that was given, or else the configured one;
/// it keeps the clock, the processes and the power state of the machine, and all
/// other settings.
pub proof fn law_a_local_run_changes_the_target_alone(
    config: AgentConfig,
    target: Option<String>,
    local: AgentConfig,
)
    requires
        localized(config, target, local),
    ensures
        target matches Some(path) ==> local.target.path@ == path@,
        target is None ==> local.target.path == config.target.path,
        local.target.args == config.target.args,
        local.target.every_session == config.target.every_session,
        local.debug.skip_time_manipulation,
        local.debug.skip_reboot_and_shutdown,
        local.study.processes_to_terminate@.len() == 0,
        local.study.uptimes == config.study.uptimes,
        local.study.autoshutdown == config.study.autoshutdown,
        local.study.scope_path == config.study.scope_path,
        local.time == config.time,
        local.drops == config.drops,
        local.screenshots == config.screenshots,
        local.scoring == config.scoring,
        local.broker == config.broker,
        local.platform == config.platform,
        local.user_actor == config.user_actor,
        local.telemetry == config.telemetry,
{
}

/// A host hands on every event that it receives, and stops at a service stop, at
/// a closed channel and once a finalization is complete: never before, and never
/// at another event.
pub proof fn law_hosts_stop_when_told_or_done(event: HostEvent, action: HostAction)
    requires
        answers(event, action),
    ensures
        (action is Stop || action is AcceptAndStop) <==> (event is Closed || event
            == HostEvent::Received(SandboxEvent::ServiceStop) || event == HostEvent::Quiet(true)),
        event matches HostEvent::Received(received) ==> (action == HostAction::Accept(received) || action
            == HostAction::AcceptAndStop(received)),
        event is Closed || event is Quiet ==> action is Stop || action is Wait,
{
}

} // verus!
