//! The program: command line, runtime decisions, diagnostics and text.

use agent::app::cli::{demo_config, demo_script, parse_number, probe_seconds, Args, Mode};
use agent::app::event::{SandboxEvent, SourceEvent};
use agent::app::runtime::{is_finalized, run_until_stop, HostAction, HostEvent};
use agent::domain::scope::{new_session, ScopeState};
use agent::protocol::config::{AgentConfig, TelemetryConfig};
use agent::protocol::events::EventType;
use agent::telemetry::{decide_egress, egress, Egress};
use agent::text::{
    decimal, eq_ignore_ascii_case, is_whitespace, join, signed_decimal, split, to_ascii_lowercase, trim,
};
use agent::NAME;

fn texts(items: &[&str]) -> Vec<String> {
    items.iter().map(|item| item.to_string()).collect()
}

fn parse(items: &[&str]) -> Args {
    Args::parse_from(&texts(items))
}

#[test]
fn nothing_on_the_command_line_is_the_console() {
    let args = parse(&[]);
    assert_eq!(args.mode(), Mode::Console);
    assert_eq!(args.config_path, "C:\\Agent.toml");
    assert!(!args.demo && !args.start && args.target.is_none());
    assert_eq!(NAME, "secoutfall-agent");
}

#[test]
fn modes_are_named_by_the_first_positional() {
    for (name, mode) in [
        ("console", Mode::Console),
        ("local", Mode::Local),
        ("simulate", Mode::Simulate),
        ("service", Mode::Service),
        ("install", Mode::Install),
        ("uninstall", Mode::Uninstall),
        ("etw-probe", Mode::EtwProbe),
        ("unheard-of", Mode::Console),
    ] {
        assert_eq!(parse(&[name]).mode(), mode);
    }
    assert_eq!(parse(&["--demo", "simulate", "service"]).mode(), Mode::Simulate);
}

#[test]
fn options_may_stand_anywhere_and_the_latest_wins() {
    let args = parse(&["--config", "a", "install", "--start", "--config", "b"]);
    assert_eq!((args.config_path.as_str(), args.start, args.mode()), ("b", true, Mode::Install));
    let args = parse(&["local", "--target", "C:\\x.exe", "--demo"]);
    assert_eq!(args.target.as_deref(), Some("C:\\x.exe"));
    assert!(args.demo);
    let args = parse(&["--config", "--demo"]);
    assert_eq!((args.config_path.as_str(), args.demo), ("--demo", false));
}

#[test]
fn options_without_their_value_are_ignored() {
    assert_eq!(parse(&["service", "--config"]).config_path, "C:\\Agent.toml");
    assert_eq!(parse(&["local", "--target"]).target, None);
}

#[test]
fn numbers_are_read_as_the_standard_library_does() {
    for text in ["0", "10", "+7", "007", "18446744073709551615", "18446744073709551616", "", "+", "-1", "1a", " 1", "١"] {
        assert_eq!(parse_number(text), text.parse::<u64>().ok(), "{text:?}");
    }
    assert_eq!(probe_seconds(&texts(&["etw-probe", "25"])), 25);
    assert_eq!(probe_seconds(&texts(&["etw-probe", "soon"])), 10);
    assert_eq!(probe_seconds(&texts(&["etw-probe"])), 10);
}

#[test]
fn the_demonstration_is_self_contained() {
    let config = demo_config("d".to_owned(), "s".to_owned());
    assert_eq!(config.target.path, "C:\\Targets\\evil.exe");
    assert_eq!(config.study.uptimes, [6000]);
    assert_eq!(config.drops.extensions, [".txt", ".exe"]);
    assert_eq!((config.drops.path.as_str(), config.screenshots.path.as_str()), ("d", "s"));
    assert_eq!(config.drops.upload_uri, None);
    let mut rest = AgentConfig::default();
    rest.target.path = "C:\\Targets\\evil.exe".to_owned();
    rest.study.uptimes = vec![6000];
    rest.drops.extensions = texts(&[".txt", ".exe"]);
    rest.drops.path = "d".to_owned();
    rest.screenshots.path = "s".to_owned();
    assert_eq!(config, rest);
    let kinds: Vec<EventType> = demo_script()
        .iter()
        .map(|event| match event {
            SandboxEvent::Source(source) => source.event_type(),
            other => panic!("unexpected {other:?}"),
        })
        .collect();
    assert_eq!(
        kinds,
        [
            EventType::ProcessStarted,
            EventType::ProcessStarted,
            EventType::FileWritten,
            EventType::FileCleanedUp,
            EventType::ProcessStopped,
            EventType::ProcessStopped,
        ]
    );
    match &demo_script()[1] {
        SandboxEvent::Source(SourceEvent::ProcessStarted(data)) => {
            assert_eq!((data.pid, data.parent_pid, data.name.as_str()), (1001, Some(1000), "cmd.exe"));
        }
        other => panic!("unexpected {other:?}"),
    }
}

#[test]
fn hosts_stop_on_request_or_after_the_finalization() {
    assert!(matches!(
        run_until_stop(HostEvent::Received(SandboxEvent::ServiceStop)),
        HostAction::AcceptAndStop(SandboxEvent::ServiceStop)
    ));
    assert!(matches!(
        run_until_stop(HostEvent::Received(SandboxEvent::StatsTick)),
        HostAction::Accept(SandboxEvent::StatsTick)
    ));
    assert!(matches!(run_until_stop(HostEvent::Closed), HostAction::Stop));
    assert!(matches!(run_until_stop(HostEvent::Quiet(true)), HostAction::Stop));
    assert!(matches!(run_until_stop(HostEvent::Quiet(false)), HostAction::Wait));
}

#[test]
fn sessions_are_finalized_once_they_ended() {
    let mut state = ScopeState::default();
    assert!(!is_finalized(&state));
    state.sessions.push(new_session(0, 0, None));
    assert!(!is_finalized(&state));
    state.sessions[0].ended_at_ms = Some(5);
    assert!(is_finalized(&state));
}

#[test]
fn diagnostics_leave_only_when_configured_and_valid() {
    let config = |enabled: bool, dsn: &str| TelemetryConfig { sentry_enabled: enabled, dsn: dsn.to_owned() };
    assert_eq!(egress(&config(true, "http://key@127.0.0.1:8000/1")), Egress::Active);
    assert_eq!(egress(&config(false, "http://key@127.0.0.1:8000/1")), Egress::Disabled);
    assert!(matches!(egress(&config(true, "not a dsn")), Egress::Invalid(text) if !text.is_empty()));
    assert_eq!(
        decide_egress(true, Some("why".to_owned())),
        Egress::Invalid("why".to_owned())
    );
    assert_eq!(decide_egress(true, None), Egress::Active);
    assert_eq!(decide_egress(false, Some("why".to_owned())), Egress::Disabled);
}

#[test]
fn white_space_is_that_of_the_standard_library() {
    for code in 0..=0x3100_u32 {
        if let Some(c) = char::from_u32(code) {
            assert_eq!(is_whitespace(c), c.is_whitespace(), "{code:#x}");
        }
    }
    assert_eq!(trim(" \u{2003}a b\t"), "a b");
    assert_eq!(trim("  "), "");
}

#[test]
fn numbers_print_in_decimal() {
    for number in [0, 7, 10, 99, 1234567890, u64::MAX] {
        assert_eq!(decimal(number), number.to_string());
    }
    for number in [0, -1, 42, i64::MIN, i64::MAX] {
        assert_eq!(signed_decimal(number), number.to_string());
    }
}

#[test]
fn texts_split_and_join() {
    for text in ["", ".", "a.b", "a..b.", "no dots"] {
        let expected: Vec<String> = text.split('.').map(|part| part.to_owned()).collect();
        assert_eq!(split(text, '.'), expected);
        assert_eq!(join(&expected, "."), text);
    }
    assert!(eq_ignore_ascii_case("AbC", "aBc"));
    assert!(!eq_ignore_ascii_case("Я", "я"));
    assert_eq!(to_ascii_lowercase("ÀB"), "Àb");
}
