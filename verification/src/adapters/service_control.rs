//! The Windows service: its controls, and how it is installed and removed.

use vstd::prelude::*;

use crate::app::event::SandboxEvent;
use crate::ports::joined_text;
use crate::text::views;

verus! {

/// Service name of the agent.
pub const SERVICE_NAME: &'static str = "SecOutfallAgent";

/// Display name shown in `services.msc`.
pub const SERVICE_DISPLAY_NAME: &'static str = "SecOutfall Agent";

/// Description shown in `services.msc`.
pub const SERVICE_DESCRIPTION: &'static str = "Malware analysis sandbox agent (session 0). Runs in an isolated analysis VM only.";

/// How long a clean stop may take before a running service is deleted anyway,
/// milliseconds.
pub const STOP_WAIT_MS: u64 = 10000;

/// How often the state of a stopping service is asked for, milliseconds.
pub const STOP_POLL_MS: u64 = 100;

/// The service does not exist.
pub const ERROR_SERVICE_DOES_NOT_EXIST: i32 = 1060;

/// The service is not running.
pub const ERROR_SERVICE_NOT_ACTIVE: i32 = 1062;

/// The service is on its way out.
pub const ERROR_SERVICE_MARKED_FOR_DELETE: i32 = 1072;

/// Controls that the service manager sends.
#[derive(Debug, Clone, Copy, PartialEq, Eq, Structural)]
pub enum ControlSignal {
    /// Stop.
    Stop,
    /// The system shuts down.
    Shutdown,
    /// Report the state.
    Interrogate,
    /// Anything else.
    Other,
}

/// What the service manager is answered.
#[derive(Debug, Clone, Copy, PartialEq, Eq, Structural)]
pub enum ControlAnswer {
    /// Done.
    NoError,
    /// Not handled.
    NotImplemented,
}

/// Stop and shutdown become the event that finalizes the session; an
/// interrogation is answered; everything else is not handled.
pub fn on_control(signal: ControlSignal) -> (handled: (Option<SandboxEvent>, ControlAnswer))
    ensures
        handled == match signal {
            ControlSignal::Stop | ControlSignal::Shutdown => (
                Some(SandboxEvent::ServiceStop),
                ControlAnswer::NoError,
            ),
            ControlSignal::Interrogate => (None::<SandboxEvent>, ControlAnswer::NoError),
            ControlSignal::Other => (None::<SandboxEvent>, ControlAnswer::NotImplemented),
        },
{
    match signal {
        ControlSignal::Stop | ControlSignal::Shutdown => (
            Some(SandboxEvent::ServiceStop),
            ControlAnswer::NoError,
        ),
        ControlSignal::Interrogate => (None, ControlAnswer::NoError),
        ControlSignal::Other => (None, ControlAnswer::NotImplemented),
    }
}

/// Failures of installation and removal.
#[derive(Debug, PartialEq, Eq)]
pub enum ServiceOpError {
    /// The service already exists; it is not clobbered.
    AlreadyInstalled,
    /// There is no service to remove.
    NotInstalled,
    /// The configuration failed to load (checked first, so that the service never
    /// crash-loops on a broken one).
    Config(String),
    /// Filesystem error (such as resolving the current executable).
    Io(String),
    /// Any other failure of the service manager.
    Scm(String),
}

impl ServiceOpError {
    /// The failure in words.
    pub open spec fn words(self) -> Seq<char> {
        match self {
            ServiceOpError::AlreadyInstalled => "service `"@ + SERVICE_NAME@
                + "` is already installed (uninstall first)"@,
            ServiceOpError::NotInstalled => "service `"@ + SERVICE_NAME@ + "` is not installed"@,
            ServiceOpError::Config(detail) => "config check failed: "@ + detail@,
            ServiceOpError::Io(detail) => "io error: "@ + detail@,
            ServiceOpError::Scm(detail) => "SCM operation failed: "@ + detail@,
        }
    }

    /// The failure in words.
    pub fn message(&self) -> (text: String)
        ensures
            text@ == self.words(),
    {
        match self {
            ServiceOpError::AlreadyInstalled => {
                let mut text = joined_text("service `", SERVICE_NAME);
                text.append("` is already installed (uninstall first)");
                text
            },
            ServiceOpError::NotInstalled => {
                let mut text = joined_text("service `", SERVICE_NAME);
                text.append("` is not installed");
                text
            },
            ServiceOpError::Config(detail) => joined_text("config check failed: ", detail.as_str()),
            ServiceOpError::Io(detail) => joined_text("io error: ", detail.as_str()),
            ServiceOpError::Scm(detail) => joined_text("SCM operation failed: ", detail.as_str()),
        }
    }
}

/// Extra actions of an installation.
#[derive(Debug, Clone, Copy, PartialEq, Eq, Structural)]
pub struct InstallOptions {
    /// Start the service right after creating it (otherwise it starts at the next
    /// boot).
    pub start_after_install: bool,
}

/// The arguments that the service is started with.
pub fn launch_arguments(config_path: &str) -> (arguments: Vec<String>)
    ensures
        views(arguments@) == seq!["--config"@, config_path@],
{
    let arguments = vec!["--config".to_owned(), config_path.to_owned()];
    proof {
        assert(views(arguments@) =~= seq!["--config"@, config_path@]);
    }
    arguments
}

/// The steps of an installation, in order.
#[derive(Debug, Clone, Copy, PartialEq, Eq, Structural)]
pub enum InstallStage {
    /// Load the configuration.
    Config,
    /// Resolve the current executable.
    Executable,
    /// Connect to the service manager.
    Connect,
    /// Look whether the service exists.
    Lookup,
    /// Create the service.
    Create,
    /// Describe it.
    Describe,
    /// Start it.
    Start,
    /// Nothing is left.
    Finished,
}

/// What the host does next.
#[derive(Debug)]
pub enum InstallAction {
    /// This step.
    Perform(InstallStage),
    /// The installation is over.
    Over(Result<(), ServiceOpError>),
}

/// The step after one that worked, or not. The lookup is meant to fail; a
/// description that is refused is no failure.
pub open spec fn install_next(options: InstallOptions, stage: InstallStage, worked: bool) -> InstallStage {
    match stage {
        InstallStage::Config => if worked {
            InstallStage::Executable
        } else {
            InstallStage::Finished
        },
        InstallStage::Executable => if worked {
            InstallStage::Connect
        } else {
            InstallStage::Finished
        },
        InstallStage::Connect => if worked {
            InstallStage::Lookup
        } else {
            InstallStage::Finished
        },
        InstallStage::Lookup => if worked {
            InstallStage::Finished
        } else {
            InstallStage::Create
        },
        InstallStage::Create => if worked {
            InstallStage::Describe
        } else {
            InstallStage::Finished
        },
        InstallStage::Describe => if options.start_after_install {
            InstallStage::Start
        } else {
            InstallStage::Finished
        },
        _ => InstallStage::Finished,
    }
}

/// What an installation reports when it is over after this step.
pub open spec fn install_result(stage: InstallStage, outcome: Result<(), String>) -> Result<
    (),
    ServiceOpError,
> {
    match (stage, outcome) {
        (InstallStage::Lookup, Ok(_)) => Err(ServiceOpError::AlreadyInstalled),
        (InstallStage::Config, Err(detail)) => Err(ServiceOpError::Config(detail)),
        (InstallStage::Executable, Err(detail)) => Err(ServiceOpError::Io(detail)),
        (InstallStage::Connect, Err(detail)) => Err(ServiceOpError::Scm(detail)),
        (InstallStage::Create, Err(detail)) => Err(ServiceOpError::Scm(detail)),
        (InstallStage::Start, Err(detail)) => Err(ServiceOpError::Scm(detail)),
        _ => Ok(()),
    }
}

/// Begin an installation: the configuration is checked first.
pub fn install() -> (begun: (InstallStage, InstallAction))
    ensures
        begun.0 is Config,
        begun.1 == InstallAction::Perform(InstallStage::Config),
{
    (InstallStage::Config, InstallAction::Perform(InstallStage::Config))
}

/// Take in how the last step went.
pub fn install_step(options: InstallOptions, stage: InstallStage, outcome: Result<(), String>) -> (next: (
    InstallStage,
    InstallAction,
))
    ensures
        next.0 == install_next(options, stage, outcome is Ok),
        next.1 == if next.0 is Finished {
            InstallAction::Over(install_result(stage, outcome))
        } else {
            InstallAction::Perform(next.0)
        },
{
    let after = match (stage, &outcome) {
        (InstallStage::Config, Ok(())) => InstallStage::Executable,
        (InstallStage::Executable, Ok(())) => InstallStage::Connect,
        (InstallStage::Connect, Ok(())) => InstallStage::Lookup,
        (InstallStage::Lookup, Err(_)) => InstallStage::Create,
        (InstallStage::Create, Ok(())) => InstallStage::Describe,
        (InstallStage::Describe, _) => if options.start_after_install {
            InstallStage::Start
        } else {
            InstallStage::Finished
        },
        _ => InstallStage::Finished,
    };
    match after {
        InstallStage::Finished => {
            let result = match (stage, outcome) {
                (InstallStage::Lookup, Ok(())) => Err(ServiceOpError::AlreadyInstalled),
                (InstallStage::Config, Err(detail)) => Err(ServiceOpError::Config(detail)),
                (InstallStage::Executable, Err(detail)) => Err(ServiceOpError::Io(detail)),
                (InstallStage::Connect, Err(detail)) => Err(ServiceOpError::Scm(detail)),
                (InstallStage::Create, Err(detail)) => Err(ServiceOpError::Scm(detail)),
                (InstallStage::Start, Err(detail)) => Err(ServiceOpError::Scm(detail)),
                _ => Ok(()),
            };
            (after, InstallAction::Over(result))
        },
        _ => (after, InstallAction::Perform(after)),
    }
}

/// An existing service is never clobbered, and a broken configuration never
/// installs anything: the service is created only after the configuration loaded
/// and the service was not found.
pub proof fn law_only_new_services_are_created(options: InstallOptions, stage: InstallStage, worked: bool)
    ensures
        install_next(options, stage, worked) is Create <==> stage is Lookup && !worked,
        install_next(options, stage, worked) is Lookup ==> stage is Connect && worked,
        install_next(options, stage, worked) is Connect ==> stage is Executable && worked,
        install_next(options, stage, worked) is Executable ==> stage is Config && worked,
{
}

/// What the service manager reports.
#[derive(Debug)]
pub enum ScmReport {
    /// The call worked.
    Done,
    /// The service is stopped.
    Stopped,
    /// The call failed: the system's error code, where there is one, and the words.
    Failed(Option<i32>, String),
}

/// The steps of a removal.
#[derive(Debug, Clone, Copy, PartialEq, Eq, Structural)]
pub enum UninstallStage {
    /// Connect to the service manager.
    Connect,
    /// Open the service.
    Open,
    /// Ask for its state.
    Query,
    /// Stop it.
    Stop,
    /// Ask for its state again, after a pause, while it stops.
    Wait,
    /// Delete it.
    Delete,
    /// Nothing is left.
    Finished,
}

/// What the host does next.
#[derive(Debug)]
pub enum UninstallAction {
    /// This step.
    Perform(UninstallStage),
    /// The removal is over.
    Over(Result<(), ServiceOpError>),
}

/// Did the call fail with this code?
pub open spec fn failed_with(report: ScmReport, code: i32) -> bool {
    report matches ScmReport::Failed(Some(given), _) && given == code
}

/// The step after a report; `waited_ms` is how long the service has been stopping.
pub open spec fn uninstall_next(stage: UninstallStage, report: ScmReport, waited_ms: u64) -> UninstallStage {
    match stage {
        UninstallStage::Connect => if report is Failed {
            UninstallStage::Finished
        } else {
            UninstallStage::Open
        },
        UninstallStage::Open => if report is Failed {
            UninstallStage::Finished
        } else {
            UninstallStage::Query
        },
        UninstallStage::Query => if report is Stopped || failed_with(
            report,
            ERROR_SERVICE_MARKED_FOR_DELETE,
        ) {
            UninstallStage::Delete
        } else if report is Failed {
            UninstallStage::Finished
        } else {
            UninstallStage::Stop
        },
        UninstallStage::Stop => if report is Failed && !failed_with(report, ERROR_SERVICE_NOT_ACTIVE) {
            UninstallStage::Finished
        } else {
            UninstallStage::Wait
        },
        UninstallStage::Wait => if report is Done && waited_ms < STOP_WAIT_MS {
            UninstallStage::Wait
        } else {
            UninstallStage::Delete
        },
        _ => UninstallStage::Finished,
    }
}

/// What a removal reports when it is over after this step.
pub open spec fn uninstall_result(stage: UninstallStage, report: ScmReport) -> Result<(), ServiceOpError> {
    match report {
        ScmReport::Failed(code, detail) => if stage is Open && code
            == Some(ERROR_SERVICE_DOES_NOT_EXIST) {
            Err(ServiceOpError::NotInstalled)
        } else if stage is Finished {
            Ok(())
        } else {
            Err(ServiceOpError::Scm(detail))
        },
        _ => Ok(()),
    }
}

/// Begin a removal.
pub fn uninstall() -> (begun: (UninstallStage, UninstallAction))
    ensures
        begun.0 is Connect,
        begun.1 == UninstallAction::Perform(UninstallStage::Connect),
{
    (UninstallStage::Connect, UninstallAction::Perform(UninstallStage::Connect))
}

/// Take in what the last step reported. A service that runs is stopped first, and
/// waited for within bounds; one that still runs then is deleted all the same (the
/// service manager defers that to the end of its process).
pub fn uninstall_step(stage: UninstallStage, report: ScmReport, waited_ms: u64) -> (next: (
    UninstallStage,
    UninstallAction,
))
    ensures
        next.0 == uninstall_next(stage, report, waited_ms),
        next.1 == if next.0 is Finished {
            UninstallAction::Over(uninstall_result(stage, report))
        } else {
            UninstallAction::Perform(next.0)
        },
{
    let code: Option<i32> = match &report {
        ScmReport::Failed(code, _) => *code,
        _ => None,
    };
    let failed = match &report {
        ScmReport::Failed(_, _) => true,
        _ => false,
    };
    let stopped = match &report {
        ScmReport::Stopped => true,
        _ => false,
    };
    let after = match stage {
        UninstallStage::Connect => if failed {
            UninstallStage::Finished
        } else {
            UninstallStage::Open
        },
        UninstallStage::Open => if failed {
            UninstallStage::Finished
        } else {
            UninstallStage::Query
        },
        UninstallStage::Query => if stopped || (failed && is_code(code, ERROR_SERVICE_MARKED_FOR_DELETE)) {
            UninstallStage::Delete
        } else if failed {
            UninstallStage::Finished
        } else {
            UninstallStage::Stop
        },
        UninstallStage::Stop => if failed && !is_code(code, ERROR_SERVICE_NOT_ACTIVE) {
            UninstallStage::Finished
        } else {
            UninstallStage::Wait
        },
        UninstallStage::Wait => if !failed && !stopped && waited_ms < STOP_WAIT_MS {
            UninstallStage::Wait
        } else {
            UninstallStage::Delete
        },
        _ => UninstallStage::Finished,
    };
    match after {
        UninstallStage::Finished => {
            let result = match (stage, report) {
                (UninstallStage::Finished, _) => Ok(()),
                (UninstallStage::Open, ScmReport::Failed(code, detail)) => if is_code(
                    code,
                    ERROR_SERVICE_DOES_NOT_EXIST,
                ) {
                    Err(ServiceOpError::NotInstalled)
                } else {
                    Err(ServiceOpError::Scm(detail))
                },
                (_, ScmReport::Failed(_, detail)) => Err(ServiceOpError::Scm(detail)),
                _ => Ok(()),
            };
            (after, UninstallAction::Over(result))
        },
        _ => (after, UninstallAction::Perform(after)),
    }
}

/// Is this the code?
fn is_code(given: Option<i32>, code: i32) -> (same: bool)
    ensures
        same == (given == Some(code)),
{
    match given {
        Some(given) => given == code,
        None => false,
    }
}

/// A service is deleted only when it is stopped, on its way out, or was asked to
/// stop and given its time.
pub proof fn law_running_services_are_stopped_first(stage: UninstallStage, report: ScmReport, waited_ms: u64)
    requires
        uninstall_next(stage, report, waited_ms) is Delete,
    ensures
        stage is Query || stage is Wait,
        stage is Query ==> report is Stopped || failed_with(report, ERROR_SERVICE_MARKED_FOR_DELETE),
        stage is Wait && report is Done ==> waited_ms >= STOP_WAIT_MS,
{
}

} // verus!
