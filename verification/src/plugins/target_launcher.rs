//! `target-launcher`: detonates the sample in the interactive session.
//!
//! The marker process starting is the interactive-session signal; its first
//! sighting launches the target, in session 0 or in every session.
//!
//! Targets that are no executables resolve through the shell's associations. The
//! image that will really run is published as a scope expectation before the
//! process is created, so that its first `process.started` finds the expectation
//! in place: a `.js` target never appears as `evil.js`, but as `wscript.exe`.

use vstd::prelude::*;

use crate::app::event::{AgentBusEvent, SandboxEvent, SourceEvent};
use crate::domain::command_line::{argv, split_command_line, Dialect};
use crate::domain::image_name::{extension, image_name, last_segment, path_extension};
use crate::domain::marker::{is_marker_process, same_marker};
use crate::domain::scope::ScopeState;
use crate::plugins::session_manager::copied;
use crate::plugins::wire::{compose, following, message};
use crate::ports::{joined_text, LaunchError, LaunchOutcome, LaunchSpec, ShellAssociationError};
use crate::protocol::config::{LaunchMechanism, TargetConfig};
use crate::protocol::events::EventType;
use crate::protocol::nats::Envelope;
use crate::protocol::payload::{Launcher, Payload, TargetLaunchedData};
use crate::text::{eq_ignore_ascii_case, join, joined, lower_ascii, opt_view, views};

verus! {

/// Launch-queue capacity.
pub const LAUNCH_QUEUE_CAPACITY: usize = 8;

/// What the launcher goes by.
#[derive(Debug)]
pub struct TargetLauncherDeps {
    /// The sample.
    pub target: TargetConfig,
    /// Marker process of the interactive session.
    pub marker: String,
    /// How processes are launched.
    pub launch_mechanism: LaunchMechanism,
}

/// Target detonation plugin.
#[derive(Debug)]
pub struct TargetLauncherPlugin {
    /// What it goes by.
    pub deps: TargetLauncherDeps,
    /// A launch was attempted this boot.
    pub attempted: bool,
}

/// Is this event the marker process starting?
pub open spec fn shows_marker(marker: Seq<char>, event: SandboxEvent) -> bool {
    event matches SandboxEvent::Source(SourceEvent::ProcessStarted(data)) && same_marker(
        marker,
        data.name@,
    )
}

/// Should this boot detonate the sample?
pub open spec fn detonates(session_count: nat, every_session: bool) -> bool {
    session_count == 1 || every_session
}

/// Is the target an executable?
pub open spec fn is_executable(path: Seq<char>) -> bool {
    path_extension(path) is Some && lower_ascii(path_extension(path)->0) == seq!['e', 'x', 'e']
}

/// A detonation in progress.
#[derive(Debug)]
pub struct LaunchRun {
    /// How far it is.
    pub phase: LaunchPhase,
}

/// How far a detonation is: each phase waits for the host's report on the action
/// that led to it.
#[derive(Debug)]
pub enum LaunchPhase {
    /// The association of the target is asked for.
    Resolving,
    /// The expectation is being published.
    Expecting(LaunchSpec),
    /// The process is being created: the program and its arguments.
    Launching(String, Vec<String>),
    /// `target.launched` is being published.
    Publishing,
    /// Nothing is left.
    Finished,
}

/// What the host does next.
#[derive(Debug)]
pub enum LaunchAction {
    /// Ask for the command that opens this document.
    Resolve(String),
    /// Publish on the bus.
    Expect(AgentBusEvent),
    /// Create the process.
    Launch(LaunchSpec),
    /// Publish on the event channel.
    Publish(Envelope),
    /// The detonation failed; the text says why.
    Failed(String),
    /// The detonation is over.
    Done,
}

/// What the host reports.
#[derive(Debug)]
pub enum LaunchEvent {
    /// The command that opens the document.
    Resolved(Result<String, ShellAssociationError>),
    /// The expectation is on the bus, and applied.
    Expected,
    /// The process was created, or not.
    Launched(Result<LaunchOutcome, LaunchError>),
    /// The message was handed to the broker.
    Published,
}

/// Is this the launch that a resolved command asks for: its first argument is
/// the program, the rest and then the configured arguments are its arguments?
pub open spec fn spec_of_command(
    spec: LaunchSpec,
    command: Seq<char>,
    config_args: Seq<Seq<char>>,
) -> bool {
    let parts = argv(Dialect::Shell, command);
    &&& parts.len() > 0
    &&& spec.path@ == parts[0]
    &&& views(spec.args@) == parts.skip(1) + config_args
    &&& spec.working_dir is None
}

/// The mechanism as reports name it.
pub open spec fn launcher_of(mechanism: LaunchMechanism) -> Launcher {
    match mechanism {
        LaunchMechanism::Token => Launcher::Token,
        LaunchMechanism::SchedTask => Launcher::SchedTask,
    }
}

/// The arguments as reports carry them: joined by blanks, `None` = none.
pub open spec fn reported_args(args: Seq<Seq<char>>) -> Option<Seq<char>> {
    if args.len() == 0 {
        None
    } else {
        Some(joined(args, seq![' ']))
    }
}

/// The expectation that goes out before a launch: the image that will run.
pub open spec fn expects_image(action: LaunchAction, path: Seq<char>) -> bool {
    action matches LaunchAction::Expect(AgentBusEvent::ExtendScopeExpectation { name }) && name@
        == last_segment(path)
}

/// How a detonation begins: an executable is expected as it stands, anything
/// else is resolved first.
pub open spec fn detonation_begins(
    deps: TargetLauncherDeps,
    phase: LaunchPhase,
    action: LaunchAction,
) -> bool {
    if is_executable(deps.target.path@) {
        &&& (phase matches LaunchPhase::Expecting(spec) && spec.path == deps.target.path && views(
            spec.args@,
        ) == views(deps.target.args@) && spec.working_dir is None)
        &&& expects_image(action, deps.target.path@)
    } else {
        &&& phase is Resolving
        &&& action == LaunchAction::Resolve(deps.target.path)
    }
}

/// What the plugin makes of one event: itself after it, and whether a detonation
/// is submitted.
pub open spec fn meets(
    before: TargetLauncherPlugin,
    session_count: nat,
    event: SandboxEvent,
    after: TargetLauncherPlugin,
    submit: bool,
) -> bool {
    &&& submit == (shows_marker(before.deps.marker@, event) && !before.attempted && detonates(
        session_count,
        before.deps.target.every_session,
    ))
    &&& after == TargetLauncherPlugin {
        attempted: before.attempted || shows_marker(before.deps.marker@, event),
        ..before
    }
}

/// One step of a detonation. A report that the phase does not wait for ends it.
pub open spec fn detonation_step(
    deps: TargetLauncherDeps,
    before: LaunchPhase,
    event: LaunchEvent,
    state: crate::domain::scope::ScopeModel,
    seq: u64,
    now_ms: i64,
    after: LaunchPhase,
    action: LaunchAction,
    seq_after: u64,
) -> bool {
    match (before, event) {
        (LaunchPhase::Resolving, LaunchEvent::Resolved(Ok(command))) => {
            &&& seq_after == seq
            &&& if argv(Dialect::Shell, command@).len() > 0 {
                &&& (after matches LaunchPhase::Expecting(spec) && spec_of_command(
                    spec,
                    command@,
                    views(deps.target.args@),
                ))
                &&& expects_image(action, argv(Dialect::Shell, command@)[0])
            } else {
                &&& after is Finished
                &&& (action matches LaunchAction::Failed(text) && text@ == "association command for `"@
                    + deps.target.path@ + "` resolved to nothing"@)
            }
        },
        (LaunchPhase::Resolving, LaunchEvent::Resolved(Err(error))) => {
            &&& seq_after == seq
            &&& after is Finished
            &&& (action matches LaunchAction::Failed(text) && text@
                == "association resolution failed: "@ + error.words())
        },
        (LaunchPhase::Expecting(spec), LaunchEvent::Expected) => {
            &&& seq_after == seq
            &&& (after matches LaunchPhase::Launching(path, args) && path == spec.path && views(args@)
                == views(spec.args@))
            &&& action == LaunchAction::Launch(spec)
        },
        (LaunchPhase::Launching(path, args), LaunchEvent::Launched(Ok(outcome))) => {
            &&& seq_after == following(seq)
            &&& after is Publishing
            &&& (action matches LaunchAction::Publish(envelope) && envelope == message(
                state,
                seq,
                now_ms,
                envelope.data,
            ) && (envelope.data matches Payload::TargetLaunched(data) && data.pid == outcome.pid
                && data.path == path && opt_view(data.args) == reported_args(views(args@))
                && data.launcher == launcher_of(deps.launch_mechanism)))
        },
        (LaunchPhase::Launching(path, args), LaunchEvent::Launched(Err(error))) => {
            &&& seq_after == seq
            &&& after is Finished
            &&& (action matches LaunchAction::Failed(text) && text@ == "target launch failed: "@
                + error.words())
        },
        _ => seq_after == seq && after is Finished && action is Done,
    }
}

impl TargetLauncherPlugin {
    /// Assemble the plugin.
    pub fn new(deps: TargetLauncherDeps) -> (plugin: Self)
        ensures
            plugin == (TargetLauncherPlugin { deps, attempted: false }),
    {
        TargetLauncherPlugin { deps, attempted: false }
    }

    /// Should this boot detonate the sample?
    pub fn should_launch(&self, state: &ScopeState) -> (launch: bool)
        ensures
            launch == detonates(state@.sessions.len(), self.deps.target.every_session),
    {
        state.sessions.len() == 1 || self.deps.target.every_session
    }

    /// Take in a pipeline event; `true` = submit the detonation to the queue. The
    /// first sighting of the marker is the only attempt of a boot.
    pub fn pre(&mut self, state: &ScopeState, event: &SandboxEvent) -> (submit: bool)
        ensures
            meets(*old(self), state@.sessions.len(), *event, *final(self), submit),
    {
        match event {
            SandboxEvent::Source(SourceEvent::ProcessStarted(data)) => {
                if !is_marker_process(self.deps.marker.as_str(), data.name.as_str()) {
                    return false;
                }
                let first = !self.attempted;
                self.attempted = true;
                first && self.should_launch(state)
            },
            _ => false,
        }
    }

    /// Begin a detonation: an executable launches directly, anything else goes
    /// through the association of its extension.
    pub fn launch_flow(deps: &TargetLauncherDeps) -> (begun: (LaunchRun, LaunchAction))
        ensures
            detonation_begins(*deps, begun.0.phase, begun.1),
    {
        let executable = match extension(deps.target.path.as_str()) {
            Some(found) => {
                proof {
                    reveal_strlit("exe");
                    assert("exe"@ =~= seq!['e', 'x', 'e']);
                    assert(lower_ascii("exe"@) =~= seq!['e', 'x', 'e']);
                }
                eq_ignore_ascii_case(found.as_str(), "exe")
            },
            None => false,
        };
        if executable {
            let spec = LaunchSpec {
                path: deps.target.path.clone(),
                args: copied(&deps.target.args),
                working_dir: None,
            };
            expecting_image(spec)
        } else {
            (
                LaunchRun { phase: LaunchPhase::Resolving },
                LaunchAction::Resolve(deps.target.path.clone()),
            )
        }
    }

    /// Take in the host's report on the last action.
    pub fn launch_step(
        deps: &TargetLauncherDeps,
        run: LaunchRun,
        event: LaunchEvent,
        state: &ScopeState,
        seq: &mut u64,
        now_ms: i64,
    ) -> (next: (LaunchRun, LaunchAction))
        ensures
            detonation_step(
                *deps,
                run.phase,
                event,
                state@,
                *old(seq),
                now_ms,
                next.0.phase,
                next.1,
                *final(seq),
            ),
    {
        match (run.phase, event) {
            (LaunchPhase::Resolving, LaunchEvent::Resolved(Ok(command))) => {
                match resolve_spec(command.as_str(), &deps.target) {
                    Some(spec) => expecting_image(spec),
                    None => {
                        let mut text = "association command for `".to_owned();
                        text.append(deps.target.path.as_str());
                        text.append("` resolved to nothing");
                        (LaunchRun { phase: LaunchPhase::Finished }, LaunchAction::Failed(text))
                    },
                }
            },
            (LaunchPhase::Resolving, LaunchEvent::Resolved(Err(error))) => {
                let text = joined_text("association resolution failed: ", error.message().as_str());
                (LaunchRun { phase: LaunchPhase::Finished }, LaunchAction::Failed(text))
            },
            (LaunchPhase::Expecting(spec), LaunchEvent::Expected) => {
                let path = spec.path.clone();
                let args = copied(&spec.args);
                (LaunchRun { phase: LaunchPhase::Launching(path, args) }, LaunchAction::Launch(spec))
            },
            (LaunchPhase::Launching(path, args), LaunchEvent::Launched(Ok(outcome))) => {
                let launcher = match deps.launch_mechanism {
                    LaunchMechanism::Token => Launcher::Token,
                    LaunchMechanism::SchedTask => Launcher::SchedTask,
                };
                let line = if args.len() == 0 {
                    None
                } else {
                    proof {
                        reveal_strlit(" ");
                        assert(" "@ =~= seq![' ']);
                    }
                    Some(join(&args, " "))
                };
                let data = TargetLaunchedData { pid: outcome.pid, path, args: line, launcher };
                let envelope = compose(
                    state,
                    seq,
                    now_ms,
                    EventType::TargetLaunched,
                    Payload::TargetLaunched(data),
                );
                (LaunchRun { phase: LaunchPhase::Publishing }, LaunchAction::Publish(envelope))
            },
            (LaunchPhase::Launching(_, _), LaunchEvent::Launched(Err(error))) => {
                let text = joined_text("target launch failed: ", error.message().as_str());
                (LaunchRun { phase: LaunchPhase::Finished }, LaunchAction::Failed(text))
            },
            _ => (LaunchRun { phase: LaunchPhase::Finished }, LaunchAction::Done),
        }
    }
}

/// The launch that a resolved command asks for; `None` = it holds no program.
pub fn resolve_spec(command: &str, target: &TargetConfig) -> (spec: Option<LaunchSpec>)
    ensures
        match spec {
            Some(spec) => spec_of_command(spec, command@, views(target.args@)),
            None => argv(Dialect::Shell, command@).len() == 0,
        },
{
    let parts = split_command_line(command);
    if parts.len() == 0 {
        return None;
    }
    let path = parts[0].clone();
    let mut args: Vec<String> = Vec::new();
    let mut at: usize = 1;
    while at < parts.len()
        invariant
            1 <= at <= parts@.len(),
            views(args@) == views(parts@).subrange(1, at as int),
        decreases parts@.len() - at,
    {
        let ghost prior = views(args@);
        args.push(parts[at].clone());
        at = at + 1;
        proof {
            assert(views(args@) =~= prior.push(views(parts@)[at - 1]));
            assert(views(args@) =~= views(parts@).subrange(1, at as int));
        }
    }
    proof {
        assert(views(args@) =~= views(parts@).skip(1));
    }
    let ghost head = views(args@);
    let mut next: usize = 0;
    while next < target.args.len()
        invariant
            next <= target.args@.len(),
            views(args@) == head + views(target.args@).take(next as int),
        decreases target.args@.len() - next,
    {
        let ghost prior = views(args@);
        args.push(target.args[next].clone());
        next = next + 1;
        proof {
            assert(views(args@) =~= prior.push(views(target.args@)[next - 1]));
            assert(views(args@) =~= head + views(target.args@).take(next as int));
        }
    }
    proof {
        assert(views(target.args@).take(target.args@.len() as int) =~= views(target.args@));
    }
    Some(LaunchSpec { path, args, working_dir: None })
}

/// The expectation comes first.
fn expecting_image(spec: LaunchSpec) -> (next: (LaunchRun, LaunchAction))
    ensures
        next.0.phase == LaunchPhase::Expecting(spec),
        expects_image(next.1, spec.path@),
{
    let name = image_name(spec.path.as_str()).to_owned();
    (
        LaunchRun { phase: LaunchPhase::Expecting(spec) },
        LaunchAction::Expect(AgentBusEvent::ExtendScopeExpectation { name }),
    )
}

/// No process is created before the expectation of its image was published: a
/// launch comes only from the phase that waits for that publication, and that
/// phase is entered only together with it, for the same program.
pub proof fn law_expectation_precedes_launch(
    deps: TargetLauncherDeps,
    before: LaunchPhase,
    event: LaunchEvent,
    state: crate::domain::scope::ScopeModel,
    seq: u64,
    now_ms: i64,
    after: LaunchPhase,
    action: LaunchAction,
    seq_after: u64,
)
    requires
        detonation_step(deps, before, event, state, seq, now_ms, after, action, seq_after),
    ensures
        action matches LaunchAction::Launch(spec) ==> before == LaunchPhase::Expecting(spec)
            && event is Expected,
        after matches LaunchPhase::Expecting(spec) ==> expects_image(action, spec.path@),
        after is Launching ==> action is Launch,
{
}

} // verus!
