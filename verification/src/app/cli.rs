//! The command line, and the demonstration study.
//!
//! `secoutfall-agent [MODE] [--config <path>] [--target <path>] [--demo] [--start]`

use vstd::prelude::*;

use crate::app::event::{SandboxEvent, SourceEvent};
use crate::protocol::config::{
    is_default, AgentConfig, DropsConfig, ScreenshotsConfig, StudyConfig, TargetConfig,
};
use crate::protocol::payload::{FileReleasedData, FileWrittenData, ProcessStartedData, ProcessStoppedData};
use crate::text::{chars_of, opt_view, views};

verus! {

/// Where the configuration is unless told otherwise.
pub const DEFAULT_CONFIG_PATH: &'static str = "C:\\Agent.toml";

/// How long a trace probe runs unless told otherwise, seconds.
pub const DEFAULT_PROBE_SECS: u64 = 10;

/// Parsed command line.
#[derive(Debug)]
pub struct Args {
    /// Positional mode (`None` = console).
    pub mode: Option<String>,
    /// Config file location.
    pub config_path: String,
    /// Sample that replaces the configured one.
    pub target: Option<String>,
    /// Console mode over fakes.
    pub demo: bool,
    /// With `install`: start the service after creating it.
    pub start: bool,
}

/// A command line, as a value.
#[verifier::ext_equal]
pub struct ArgsModel {
    pub mode: Option<Seq<char>>,
    pub config_path: Seq<char>,
    pub target: Option<Seq<char>>,
    pub demo: bool,
    pub start: bool,
}

impl View for Args {
    type V = ArgsModel;

    open spec fn view(&self) -> ArgsModel {
        ArgsModel {
            mode: opt_view(self.mode),
            config_path: self.config_path@,
            target: opt_view(self.target),
            demo: self.demo,
            start: self.start,
        }
    }
}

/// What a command line says before anything is on it.
pub open spec fn nothing_said() -> ArgsModel {
    ArgsModel {
        mode: None,
        config_path: DEFAULT_CONFIG_PATH@,
        target: None,
        demo: false,
        start: false,
    }
}

/// What a command line says once the rest of it is read: options may stand
/// anywhere, the latest wins; the first positional is the mode, others are
/// ignored; an option without its value is ignored.
pub open spec fn read(said: ArgsModel, rest: Seq<Seq<char>>) -> ArgsModel
    decreases rest.len(),
{
    if rest.len() == 0 {
        said
    } else if rest[0] == "--config"@ {
        if rest.len() == 1 {
            said
        } else {
            read(ArgsModel { config_path: rest[1], ..said }, rest.skip(2))
        }
    } else if rest[0] == "--target"@ {
        if rest.len() == 1 {
            said
        } else {
            read(ArgsModel { target: Some(rest[1]), ..said }, rest.skip(2))
        }
    } else if rest[0] == "--demo"@ {
        read(ArgsModel { demo: true, ..said }, rest.skip(1))
    } else if rest[0] == "--start"@ {
        read(ArgsModel { start: true, ..said }, rest.skip(1))
    } else if said.mode is None {
        read(ArgsModel { mode: Some(rest[0]), ..said }, rest.skip(1))
    } else {
        read(said, rest.skip(1))
    }
}

impl Args {
    /// Parse the arguments that follow the program's name.
    pub fn parse_from(args: &Vec<String>) -> (parsed: Self)
        ensures
            parsed@ == read(nothing_said(), views(args@)),
    {
        let mut parsed = Args {
            mode: None,
            config_path: DEFAULT_CONFIG_PATH.to_owned(),
            target: None,
            demo: false,
            start: false,
        };
        let ghost all = views(args@);
        let mut at: usize = 0;
        proof {
            assert(all.skip(0) =~= all);
        }
        while at < args.len()
            invariant
                at <= args@.len(),
                all == views(args@),
                read(nothing_said(), all) == read(parsed@, all.skip(at as int)),
            decreases args@.len() - at,
        {
            let arg = args[at].as_str();
            let ghost rest = all.skip(at as int);
            let ghost said = parsed@;
            proof {
                assert(rest[0] == arg@);
                assert(rest.skip(1) =~= all.skip(at + 1));
                assert(at + 1 < args@.len() ==> rest[1] == args@[at + 1]@);
                assert(at + 1 < args@.len() ==> rest.skip(2) =~= all.skip(at + 2));
            }
            if *arg == *"--config" {
                if args.len() - at == 1 {
                    at = at + 1;
                    proof {
                        assert(all.skip(at as int).len() == 0);
                    }
                } else {
                    parsed.config_path = args[at + 1].clone();
                    at = at + 2;
                }
            } else if *arg == *"--target" {
                if args.len() - at == 1 {
                    at = at + 1;
                    proof {
                        assert(all.skip(at as int).len() == 0);
                    }
                } else {
                    parsed.target = Some(args[at + 1].clone());
                    at = at + 2;
                }
            } else if *arg == *"--demo" {
                parsed.demo = true;
                at = at + 1;
            } else if *arg == *"--start" {
                parsed.start = true;
                at = at + 1;
            } else {
                if parsed.mode.is_none() {
                    parsed.mode = Some(args[at].clone());
                }
                at = at + 1;
            }
        }
        proof {
            assert(all.skip(at as int).len() == 0);
        }
        parsed
    }

    /// The mode that is asked for; an unknown one is the console.
    pub fn mode(&self) -> (mode: Mode)
        ensures
            mode == mode_named(self@.mode),
    {
        match &self.mode {
            None => Mode::Console,
            Some(name) => {
                let name = name.as_str();
                if *name == *"simulate" {
                    Mode::Simulate
                } else if *name == *"service" {
                    Mode::Service
                } else if *name == *"install" {
                    Mode::Install
                } else if *name == *"uninstall" {
                    Mode::Uninstall
                } else if *name == *"etw-probe" {
                    Mode::EtwProbe
                } else if *name == *"local" {
                    Mode::Local
                } else {
                    Mode::Console
                }
            },
        }
    }
}

/// What the agent is started as.
#[derive(Debug, Clone, Copy, PartialEq, Eq, Structural)]
pub enum Mode {
    /// Full runtime on this host; Ctrl+C finalizes the session.
    Console,
    /// Standalone run against a local target.
    Local,
    /// Scripted single-session demo.
    Simulate,
    /// Windows service.
    Service,
    /// Create the service.
    Install,
    /// Delete the service.
    Uninstall,
    /// Live kernel-trace probe.
    EtwProbe,
}

/// The mode of a name.
pub open spec fn mode_named(name: Option<Seq<char>>) -> Mode {
    match name {
        None => Mode::Console,
        Some(name) => if name == "simulate"@ {
            Mode::Simulate
        } else if name == "service"@ {
            Mode::Service
        } else if name == "install"@ {
            Mode::Install
        } else if name == "uninstall"@ {
            Mode::Uninstall
        } else if name == "etw-probe"@ {
            Mode::EtwProbe
        } else if name == "local"@ {
            Mode::Local
        } else {
            Mode::Console
        },
    }
}

/// The number that decimal digits stand for.
pub open spec fn digits_value(digits: Seq<char>) -> nat
    decreases digits.len(),
{
    if digits.len() == 0 {
        0
    } else {
        (10 * digits_value(digits.drop_last()) + (digits.last() as u32 - 0x30)) as nat
    }
}

/// Are these decimal digits, at least one?
pub open spec fn is_number(digits: Seq<char>) -> bool {
    &&& digits.len() > 0
    &&& forall|i: int| 0 <= i < digits.len() ==> '0' <= #[trigger] digits[i] <= '9'
}

/// The text without one leading plus sign.
pub open spec fn unsigned_part(text: Seq<char>) -> Seq<char> {
    if text.len() > 0 && text[0] == '+' {
        text.skip(1)
    } else {
        text
    }
}

/// The 64-bit number that a text stands for: decimal digits, a plus sign in front
/// of them or not.
pub open spec fn number_of(text: Seq<char>) -> Option<u64> {
    let digits = unsigned_part(text);
    if is_number(digits) && digits_value(digits) <= u64::MAX {
        Some(digits_value(digits) as u64)
    } else {
        None
    }
}

/// The 64-bit number that a text stands for.
pub fn parse_number(text: &str) -> (number: Option<u64>)
    ensures
        number == number_of(text@),
{
    let chars = chars_of(text);
    let start: usize = if chars.len() > 0 && chars[0] == '+' {
        1
    } else {
        0
    };
    let ghost digits = unsigned_part(text@);
    proof {
        assert(digits =~= text@.skip(start as int));
    }
    if start == chars.len() {
        return None;
    }
    let mut value: u64 = 0;
    let mut fits: bool = true;
    let mut at: usize = start;
    proof {
        assert(digits.take(0) =~= Seq::<char>::empty());
    }
    while at < chars.len()
        invariant
            start <= at <= chars@.len(),
            chars@ == text@,
            digits == text@.skip(start as int),
            digits == unsigned_part(text@),
            forall|i: int| 0 <= i < at - start ==> '0' <= #[trigger] digits[i] <= '9',
            fits ==> value == digits_value(digits.take(at - start)),
            !fits ==> digits_value(digits.take(at - start)) > u64::MAX,
        decreases chars@.len() - at,
    {
        let c = chars[at];
        proof {
            assert(c == digits[at - start]);
            assert(digits.take(at - start + 1).drop_last() =~= digits.take(at - start));
            assert(digits.take(at - start + 1).last() == c);
        }
        if !('0' <= c && c <= '9') {
            proof {
                assert(!('0' <= digits[at - start] <= '9'));
            }
            return None;
        }
        let digit: u64 = (c as u32 - 0x30) as u64;
        if fits {
            if value <= (u64::MAX - digit) / 10 {
                value = 10 * value + digit;
            } else {
                fits = false;
            }
        }
        at = at + 1;
    }
    proof {
        assert(digits.take(at - start) =~= digits);
    }
    if fits {
        Some(value)
    } else {
        None
    }
}

/// How long a trace probe runs, seconds, from the arguments that follow the
/// program's name: the one behind the mode, where it is a number.
pub fn probe_seconds(args: &Vec<String>) -> (seconds: u64)
    ensures
        seconds == if args@.len() > 1 {
            match number_of(args@[1]@) {
                Some(number) => number,
                None => DEFAULT_PROBE_SECS,
            }
        } else {
            DEFAULT_PROBE_SECS
        },
{
    if args.len() > 1 {
        match parse_number(args[1].as_str()) {
            Some(number) => number,
            None => DEFAULT_PROBE_SECS,
        }
    } else {
        DEFAULT_PROBE_SECS
    }
}

// ---- The demonstration study ----

/// The clock that a simulation starts at, unix milliseconds.
pub const DEMO_START_MS: i64 = 1_465_182_366_000;

/// A configuration with those settings of the demonstration that are its own, and
/// all the others as they were.
pub open spec fn demonstrates(base: AgentConfig, demo: AgentConfig) -> AgentConfig {
    AgentConfig {
        target: TargetConfig { path: demo.target.path, ..base.target },
        study: StudyConfig { uptimes: demo.study.uptimes, ..base.study },
        drops: DropsConfig {
            path: demo.drops.path,
            extensions: demo.drops.extensions,
            upload_uri: demo.drops.upload_uri,
            ..base.drops
        },
        screenshots: ScreenshotsConfig { path: demo.screenshots.path, ..base.screenshots },
        ..base
    }
}

/// Demo configuration; what it collects goes to the given directories. What it does
/// not set is as in the default configuration.
pub fn demo_config(drops_path: String, shots_path: String) -> (config: AgentConfig)
    ensures
        config.target.path@ == "C:\\Targets\\evil.exe"@,
        config.study.uptimes@ == seq![6000u64],
        views(config.drops.extensions@) == seq![".txt"@, ".exe"@],
        config.drops.path == drops_path,
        config.drops.upload_uri is None,
        config.screenshots.path == shots_path,
        exists|base: AgentConfig| #[trigger] is_default(base) && config == demonstrates(base, config),
{
    let mut config = AgentConfig::default();
    let ghost base = config;
    config.target.path = "C:\\Targets\\evil.exe".to_owned();
    config.study.uptimes = vec![6000];
    config.drops.extensions = vec![".txt".to_owned(), ".exe".to_owned()];
    config.drops.path = drops_path;
    config.drops.upload_uri = None;
    config.screenshots.path = shots_path;
    proof {
        assert(config.study.uptimes@ =~= seq![6000u64]);
        assert(views(config.drops.extensions@) =~= seq![".txt"@, ".exe"@]);
        assert(is_default(base) && config == demonstrates(base, config));
    }
    config
}

/// Is this a process of the demonstration starting?
pub open spec fn starts(event: SandboxEvent, pid: u32, parent: Option<u32>, name: Seq<char>) -> bool {
    event matches SandboxEvent::Source(SourceEvent::ProcessStarted(data)) && data.pid == pid
        && data.parent_pid == parent && data.name@ == name && data.image_path is None
        && data.command_line is None && data.os_session_id == Some(1u32)
}

/// Is this a process of the demonstration stopping?
pub open spec fn stops(event: SandboxEvent, pid: u32, name: Seq<char>) -> bool {
    event matches SandboxEvent::Source(SourceEvent::ProcessStopped(data)) && data.pid == pid && data.name@
        == name
}

/// Is this the demonstration's write?
pub open spec fn writes(event: SandboxEvent, pid: u32, path: Seq<char>) -> bool {
    event matches SandboxEvent::Source(SourceEvent::FileWritten(data)) && data.pid == pid
        && data.file_object == Some(1u64) && data.file_key == Some(2u64) && opt_view(data.file_name)
        == Some(path) && data.io_size == Some(512u64) && data.offset == Some(0u64)
}

/// Is this the demonstration's close?
pub open spec fn closes(event: SandboxEvent, pid: u32, path: Seq<char>) -> bool {
    event matches SandboxEvent::Source(SourceEvent::FileCleanedUp(data)) && data.pid == pid
        && data.file_object == Some(1u64) && data.file_key == Some(2u64) && opt_view(data.file_name)
        == Some(path)
}

/// The demonstration: the sample starts a shell, which writes a file and closes
/// it; then both stop. The close frees the file for collection.
pub fn demo_script() -> (script: Vec<SandboxEvent>)
    ensures
        script@.len() == 6,
        starts(script@[0], 1000, None, "evil.exe"@),
        starts(script@[1], 1001, Some(1000), "cmd.exe"@),
        writes(script@[2], 1001, "C:\\Users\\victim\\payload.txt"@),
        closes(script@[3], 1001, "C:\\Users\\victim\\payload.txt"@),
        stops(script@[4], 1001, "cmd.exe"@),
        stops(script@[5], 1000, "evil.exe"@),
{
    vec![
        source_process_started(1000, None, "evil.exe"),
        source_process_started(1001, Some(1000), "cmd.exe"),
        source_file_written(1001, "C:\\Users\\victim\\payload.txt"),
        SandboxEvent::Source(
            SourceEvent::FileCleanedUp(
                FileReleasedData {
                    pid: 1001,
                    file_object: Some(1),
                    file_key: Some(2),
                    file_name: Some("C:\\Users\\victim\\payload.txt".to_owned()),
                },
            ),
        ),
        source_process_stopped(1001, "cmd.exe"),
        source_process_stopped(1000, "evil.exe"),
    ]
}

/// A process of the demonstration starts.
fn source_process_started(pid: u32, parent: Option<u32>, name: &str) -> (event: SandboxEvent)
    ensures
        starts(event, pid, parent, name@),
{
    SandboxEvent::Source(
        SourceEvent::ProcessStarted(
            ProcessStartedData {
                pid,
                parent_pid: parent,
                name: name.to_owned(),
                image_path: None,
                command_line: None,
                os_session_id: Some(1),
            },
        ),
    )
}

/// A process of the demonstration stops.
fn source_process_stopped(pid: u32, name: &str) -> (event: SandboxEvent)
    ensures
        stops(event, pid, name@),
{
    SandboxEvent::Source(SourceEvent::ProcessStopped(ProcessStoppedData { pid, name: name.to_owned() }))
}

/// A process of the demonstration writes a file.
fn source_file_written(pid: u32, path: &str) -> (event: SandboxEvent)
    ensures
        writes(event, pid, path@),
{
    SandboxEvent::Source(
        SourceEvent::FileWritten(
            FileWrittenData {
                pid,
                file_object: Some(1),
                file_key: Some(2),
                file_name: Some(path.to_owned()),
                io_size: Some(512),
                offset: Some(0),
            },
        ),
    )
}

} // verus!
