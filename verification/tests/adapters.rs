//! The adapters: brokers, clocks, launchers, stores, uploads, IPC and the service.

use agent::adapters::broker::{should_print, ConsoleBroker, FakeBroker, TeeBroker};
use agent::adapters::broker_nats::{
    validate_subject, ConnectError, Dial, DialAction, NatsBrokerAdapter, SendOutcome, CONNECT_ATTEMPTS,
    CONNECT_RETRY_DELAY_SECS,
};
use agent::adapters::clock::{
    split_filetime, unix_ms_to_filetime, FakeClock, SystemClock, UnavailableClockShifter, WindowsClockShifter,
    UNIX_EPOCH_FILETIME_100NS,
};
use agent::adapters::etw::{parse_event, EtwKernelTraceAdapter, EtwProperty, EtwRecord};
use agent::adapters::etw_mapping::EtwProvider;
use agent::adapters::event_source_fake::FakeEventSource;
use agent::adapters::ipc_server::{
    console_user_pipe_sddl, constant_time_eq, frame_error_message, send_frame, ClientSession, IpcServerAdapter,
    ServeAction, DEFAULT_PIPE_SDDL, HANDSHAKE_TIMEOUT_MS, PIPE_NAME,
};
use agent::adapters::killer::{normalize, FakeProcessKiller, UnavailableProcessKiller, WindowsProcessKiller};
use agent::adapters::launcher::{
    wide_null, FakeLauncher, TokenProcessLauncher, TokenRefusal, UnavailableLauncher,
};
use agent::adapters::schedtask::{
    action_command_line, console_session_user, quote_argument, SchedTaskLauncher, TaskAction, TaskStage,
    TASK_NAME,
};
use agent::adapters::scheduler::{SchedulerAdapter, KEEPALIVE_PERIOD_SECS};
use agent::adapters::scope_store::{
    InMemoryScopeRepository, JsonScopeRepository, LocalScopeRepository, ReadOutcome, SaveAction, SaveStage,
    ScopeRepositoryError, StepOutcome,
};
use agent::adapters::service_control::{
    install, install_step, launch_arguments, on_control, uninstall, uninstall_step, ControlAnswer,
    ControlSignal, InstallAction, InstallOptions, InstallStage, ScmReport, ServiceOpError, UninstallAction,
    UninstallStage, ERROR_SERVICE_DOES_NOT_EXIST, ERROR_SERVICE_MARKED_FOR_DELETE, ERROR_SERVICE_NOT_ACTIVE,
};
use agent::adapters::shell_association::{
    decode_utf16_reg_sz, extension_of, FakeShellAssociation, LookupAction,
    RegistryShellAssociationAdapter, UnavailableShellAssociation,
};
use agent::adapters::upload::{begin_upload, CappedStream, FakeUploader, OpenOutcome, RecordedUpload};
use agent::app::event::{SandboxEvent, ScreenshotFrame, SourceEvent};
use agent::domain::scope::{new_session, ScopeState};
use agent::domain::study_id::StudyId;
use agent::plugins::wire::{envelope_raw, next_seq};
use agent::ports::{
    BrokerError, Channel, ClockShiftError, Directory, KillOutcome, LaunchError, LaunchOutcome, LaunchSpec,
    ShellAssociationError, UploadError, UploadMeta, UploadRequest,
};
use agent::protocol::config::{AgentConfig, UserActorSettings};
use agent::protocol::events::EventType;
use agent::protocol::ipc::{
    decode_screenshot, FrameError, FrameHeader, Hello, Welcome, ERROR, GET_CONFIG, HELLO,
    IPC_PROTOCOL_VERSION, MAX_PAYLOAD, SCREENSHOT,
};
use agent::protocol::nats::Envelope;
use agent::protocol::payload::{
    ControlKeepaliveData, Payload, ProcessStartedData, SessionStartedData, UserActorStartedData,
    UserActorStoppedData,
};
use agent::utf16::{decode_utf16, encode_utf16};

fn texts(items: &[&str]) -> Vec<String> {
    items.iter().map(|item| item.to_string()).collect()
}

fn one_session(study: u128) -> ScopeState {
    ScopeState { study_id: StudyId::from_u128(study), sessions: vec![new_session(0, 1000, Some(60))] }
}

fn keepalive(seq: u64) -> Envelope {
    envelope_raw(
        0,
        seq,
        StudyId::from_u128(1),
        0,
        EventType::ControlKeepalive,
        Payload::ControlKeepalive(ControlKeepaliveData {}),
    )
}

fn session_started(seq: u64) -> Envelope {
    envelope_raw(
        0,
        seq,
        StudyId::from_u128(0xAB << 120),
        3,
        EventType::SessionStarted,
        Payload::SessionStarted(SessionStartedData { scheduled_duration_secs: Some(3) }),
    )
}

// ---- Brokers ----

#[test]
fn keepalives_are_suppressed_everything_else_prints() {
    assert!(!should_print(EventType::ControlKeepalive));
    for event_type in [
        EventType::ProcessStarted,
        EventType::SessionStarted,
        EventType::DropObserved,
        EventType::StudyShutdownRequested,
    ] {
        assert!(should_print(event_type), "{event_type:?} must print");
    }
}

#[test]
fn publish_counts_and_reports_keepalive_suppression() {
    let mut broker = ConsoleBroker::default();
    assert_eq!(broker.publish(Channel::Control, &keepalive(1)), None);
    assert_eq!(broker.publish(Channel::Control, &keepalive(2)), None);
    let line = broker.publish(Channel::Event, &session_started(12)).unwrap();
    assert_eq!(line, "[ events] #12 session.started session=3 study=ab000000");
    assert_eq!(broker.suppressed_keepalives(), 2);
    assert_eq!(broker.printed(), 1);
    let line = broker.publish(Channel::Control, &session_started(1)).unwrap();
    assert_eq!(line, "[control] #1 session.started session=3 study=ab000000");
}

#[test]
fn every_sink_receives_every_envelope() {
    let mut left = FakeBroker::default();
    let mut right = FakeBroker::default();
    let mut outcomes = Vec::new();
    outcomes.push(left.publish(Channel::Event, session_started(1)));
    outcomes.push(right.publish(Channel::Event, session_started(1)));
    let tee = TeeBroker::new(vec![left, right]);
    assert_eq!(tee.verdict(&outcomes), Ok(()));
    assert_eq!(tee.sinks[0].event_sequence().len(), 1);
    assert_eq!(tee.sinks[1].event_sequence().len(), 1);
}

#[test]
fn a_tee_asks_each_sink_once_and_in_order() {
    let tee = TeeBroker::new(vec!["first", "second"]);
    let mut asked = Vec::new();
    let mut outcomes = Vec::new();
    while let Some(sink) = tee.next_sink(&outcomes) {
        asked.push(*sink);
        outcomes.push(Err(BrokerError::ConnectionLost));
    }
    assert_eq!(asked, ["first", "second"]);
    assert!(tee.verdict(&outcomes).is_err());
}

#[test]
fn a_tee_fails_only_when_every_sink_does() {
    let tee = TeeBroker::new(vec![1, 2]);
    assert_eq!(tee.verdict(&vec![Err(BrokerError::ConnectionLost), Ok(())]), Ok(()));
    assert_eq!(
        tee.verdict(&vec![Err(BrokerError::ConnectionLost), Err(BrokerError::ConnectionLost)]),
        Err(BrokerError::Persistence("all tee sinks failed".to_owned()))
    );
    let empty: TeeBroker<u8> = TeeBroker::new(Vec::new());
    assert!(empty.verdict(&Vec::new()).is_err());
    assert_eq!(
        BrokerError::Persistence("disk".to_owned()).message(),
        "event persistence failed: disk"
    );
    assert_eq!(BrokerError::ConnectionLost.message(), "broker connection lost");
}

#[test]
fn the_recording_broker_tells_channels_apart() {
    let mut broker = FakeBroker::default();
    broker.publish(Channel::Control, keepalive(1)).unwrap();
    broker.publish(Channel::Event, session_started(2)).unwrap();
    broker.publish(Channel::Control, keepalive(3)).unwrap();
    assert_eq!(broker.published().len(), 3);
    let control: Vec<u64> = broker.of_channel(Channel::Control).iter().map(|e| e.seq).collect();
    assert_eq!(control, [1, 3]);
    assert_eq!(broker.event_sequence(), [EventType::SessionStarted]);
}

fn subject_error(subject: &str) -> String {
    match validate_subject(subject) {
        Ok(()) => panic!("subject `{subject}` should be invalid"),
        Err(ConnectError::InvalidSubject { subject, detail }) => format!("{subject}: {detail}"),
        Err(ConnectError::RetriesExhausted { attempts, .. }) => {
            panic!("unexpected RetriesExhausted({attempts}) for subject validation")
        }
    }
}

#[test]
fn subjects_follow_nats_token_grammar() {
    for subject in ["events", "secoutfall.events", "a-b_c1", "*.*", "events.>"] {
        validate_subject(subject).unwrap_or_else(|_| panic!("`{subject}` should be valid"));
    }
    assert!(subject_error("").contains("empty token"));
    assert!(subject_error("events..x").contains("empty token"));
    assert!(subject_error("events sp.ace").contains("illegal character"));
    assert!(subject_error("events\nnewline").contains("illegal character"));
}

#[test]
fn the_first_faulty_token_is_reported() {
    assert_eq!(subject_error("a.b c.d e"), "a.b c.d e: illegal character in token `b c`");
    assert_eq!(subject_error("a. .")
        , "a. .: illegal character in token ` `");
    assert_eq!(subject_error("события"), "события: illegal character in token `события`");
    assert_eq!(
        validate_subject("x.").unwrap_err().message(),
        "invalid NATS subject `x.`: empty token"
    );
}

#[test]
fn connecting_gives_up_after_the_budget() {
    let config = AgentConfig::default();
    let mut dial = Dial::new(&config.broker, 2).unwrap();
    for attempt in ["first", "second"] {
        assert!(matches!(dial.next(), DialAction::Connect));
        dial.failed(attempt.to_owned());
    }
    match dial.next() {
        DialAction::GiveUp(error) => {
            assert_eq!(error.message(), "NATS connect failed after 2 attempts: second");
        }
        DialAction::Connect => panic!("the budget is spent"),
    }
    assert_eq!((CONNECT_ATTEMPTS, CONNECT_RETRY_DELAY_SECS), (18, 5));
}

#[test]
fn connecting_checks_subjects_and_needs_a_budget() {
    let mut config = AgentConfig::default();
    match Dial::new(&config.broker, 0).unwrap().next() {
        DialAction::GiveUp(error) => assert_eq!(
            error,
            ConnectError::RetriesExhausted { attempts: 0, last_error: "no attempts made".to_owned() }
        ),
        DialAction::Connect => panic!("there is no budget"),
    }
    config.broker.event_channel = "e v".to_owned();
    assert!(matches!(
        Dial::new(&config.broker, 1),
        Err(ConnectError::InvalidSubject { subject, .. }) if subject == "e v"
    ));
    config.broker.control_channel = "".to_owned();
    assert!(matches!(
        Dial::new(&config.broker, 1),
        Err(ConnectError::InvalidSubject { subject, .. }) if subject.is_empty()
    ));
}

#[test]
fn lost_messages_are_counted() {
    let mut broker = NatsBrokerAdapter::connected(&AgentConfig::default().broker);
    assert_eq!(broker.subject(Channel::Control), "control");
    assert_eq!(broker.subject(Channel::Event), "events");
    assert_eq!(broker.published(SendOutcome::Sent), Ok(()));
    assert_eq!(broker.published(SendOutcome::Unwritable), Err(BrokerError::ConnectionLost));
    assert_eq!(broker.loss_count(), 0);
    assert_eq!(broker.published(SendOutcome::Lost), Err(BrokerError::ConnectionLost));
    assert_eq!(broker.loss_count(), 1);
}

// ---- Clocks ----

#[test]
fn unix_epoch_maps_to_the_filetime_epoch_constant() {
    assert_eq!(unix_ms_to_filetime(0).unwrap(), UNIX_EPOCH_FILETIME_100NS);
    assert_eq!(unix_ms_to_filetime(1).unwrap(), UNIX_EPOCH_FILETIME_100NS + 10_000);
}

#[test]
fn filetime_split_roundtrips_through_low_and_high() {
    let ft = unix_ms_to_filetime(1_465_182_366_000).unwrap();
    let split = split_filetime(ft).unwrap();
    let joined = i64::from(split.dwHighDateTime) << 32 | i64::from(split.dwLowDateTime);
    assert_eq!(joined, ft);
}

#[test]
fn negative_filetimes_split_into_their_bits() {
    let split = split_filetime(-1).unwrap();
    assert_eq!((split.dwLowDateTime, split.dwHighDateTime), (u32::MAX, u32::MAX));
}

#[test]
fn times_out_of_range_are_refused() {
    for unix_ms in [i64::MAX, i64::MIN, i64::MAX / 10_000] {
        assert_eq!(
            unix_ms_to_filetime(unix_ms),
            Err(ClockShiftError::System(format!("timestamp {unix_ms} out of range")))
        );
        assert!(WindowsClockShifter::new().target(unix_ms).is_err());
    }
    assert!(unix_ms_to_filetime(i64::MIN / 10_000).is_ok());
    assert_eq!(
        WindowsClockShifter::new().target(0).unwrap(),
        split_filetime(UNIX_EPOCH_FILETIME_100NS).unwrap()
    );
}

#[test]
fn the_stand_in_clock_shifter_explains_itself() {
    let error = UnavailableClockShifter.set_unix_ms(0).unwrap_err();
    assert_eq!(
        error.message(),
        "clock manipulation unavailable: build with --features time_shift on Windows"
    );
}

#[test]
fn clocks_tell_the_time() {
    assert_eq!(SystemClock.now_ms(None), 0);
    assert_eq!(SystemClock.now_ms(Some(42)), 42);
    assert_eq!(SystemClock.now_ms(Some(u128::MAX)), i64::MAX);
    let mut clock = FakeClock::new(100);
    clock.advance_ms(-30);
    assert_eq!(clock.now_ms(), 70);
    clock.set_ms(i64::MAX);
    clock.advance_ms(1);
    assert_eq!(clock.now_ms(), i64::MIN);
    clock.set_unix_ms(5).unwrap();
    assert_eq!(clock.now_ms(), 5);
}

// ---- Scheduled tasks ----

fn spec(path: &str, args: &[&str]) -> LaunchSpec {
    LaunchSpec { path: path.to_owned(), args: texts(args), working_dir: None }
}

#[test]
fn quoting_follows_windows_rules() {
    assert_eq!(quote_argument("plain.exe"), "plain.exe");
    assert_eq!(quote_argument("C:\\dir\\file.exe"), "C:\\dir\\file.exe");
    assert_eq!(quote_argument("C:\\dir\\"), "C:\\dir\\");
    assert_eq!(quote_argument(""), "\"\"");
    assert_eq!(quote_argument("with space"), "\"with space\"");
    assert_eq!(quote_argument("a\"b"), "\"a\\\"b\"");
    assert_eq!(quote_argument("a b\\"), "\"a b\\\\\"");
}

#[test]
fn action_line_wraps_the_helper_contract() {
    let line = action_command_line(
        "C:\\Tools\\runas.exe",
        &spec("C:\\Targets\\evil.exe", &["-k", "v 1"]),
    );
    assert_eq!(line, "C:\\Tools\\runas.exe --path C:\\Targets\\evil.exe -- -k \"v 1\"");
}

/// What the C runtime does to the stored action when the task fires.
fn split_command_line(line: &str) -> Vec<String> {
    let mut out = Vec::new();
    let mut current = String::new();
    let mut in_quotes = false;
    let mut backslashes = 0_usize;
    let mut started = false;
    for ch in line.chars() {
        match ch {
            '\\' => backslashes += 1,
            '"' => {
                current.extend(std::iter::repeat('\\').take(backslashes / 2));
                if backslashes % 2 == 1 {
                    current.push('"');
                } else {
                    in_quotes = !in_quotes;
                }
                backslashes = 0;
                started = true;
            }
            ' ' | '\t' if !in_quotes => {
                current.extend(std::iter::repeat('\\').take(backslashes));
                backslashes = 0;
                if started || !current.is_empty() {
                    out.push(std::mem::take(&mut current));
                }
                started = false;
            }
            other => {
                current.extend(std::iter::repeat('\\').take(backslashes));
                backslashes = 0;
                current.push(other);
                started = true;
            }
        }
    }
    current.extend(std::iter::repeat('\\').take(backslashes));
    if started || !current.is_empty() {
        out.push(current);
    }
    out
}

#[test]
fn hostile_action_lines_round_trip_through_createprocess_rules() {
    let cases: Vec<(String, LaunchSpec)> = vec![
        (
            "C:\\Tools\\run as.exe".to_owned(),
            spec("C:\\wei rd\\ta\"rget.exe", &["--flag\\path"]),
        ),
        ("helper.exe".to_owned(), spec("C:\\evil\\", &["-x", "", "a\"b", "\\\\server\\share"])),
        ("h.exe".to_owned(), spec("t.exe", &["\"quoted\"", "\\", "\\\\"])),
    ];
    for (helper, spec) in cases {
        let action = action_command_line(&helper, &spec);
        let mut expected = vec![helper, "--path".to_owned(), spec.path, "--".to_owned()];
        expected.extend(spec.args.iter().cloned());
        assert_eq!(split_command_line(&action), expected, "action: {action}");
    }
}

#[test]
fn task_launches_create_run_and_delete() {
    let launcher = SchedTaskLauncher::new("h.exe".to_owned());
    assert_eq!(
        launcher.launch(&spec("t.exe", &[]), None).unwrap_err(),
        LaunchError::NoInteractiveSession
    );
    let user = console_session_user(Some("joe".to_owned()), Some("LAB".to_owned()));
    assert_eq!(user.as_deref(), Some("LAB\\joe"));
    assert_eq!(console_session_user(Some("".to_owned()), None), None);
    let (stage, action) = launcher.launch(&spec("t.exe", &[]), user).unwrap();
    match action {
        TaskAction::Call(args) => {
            assert_eq!(args[0], "/Create");
            assert!(args.contains(&"LAB\\joe".to_owned()));
            assert!(args.contains(&"h.exe --path t.exe --".to_owned()));
            assert!(args.contains(&TASK_NAME.to_owned()));
        }
        TaskAction::Over(_) => panic!("the task must be created"),
    }
    let (stage, action) = SchedTaskLauncher::launch_step(stage, Ok(()));
    assert!(matches!(action, TaskAction::Call(args) if args[0] == "/Run"));
    let failure = LaunchError::Spawn("no".to_owned());
    let (stage, action) = SchedTaskLauncher::launch_step(stage.unwrap(), Err(failure));
    assert!(matches!(action, TaskAction::Call(args) if args[0] == "/Delete"));
    let (stage, action) = SchedTaskLauncher::launch_step(stage.unwrap(), Ok(()));
    assert!(stage.is_none());
    assert!(matches!(action, TaskAction::Over(Err(LaunchError::Spawn(text))) if text == "no"));
    let (_, action) = SchedTaskLauncher::launch_step(
        TaskStage::Deleting(Ok(())),
        Err(LaunchError::Spawn("late".to_owned())),
    );
    assert!(matches!(action, TaskAction::Over(Ok(LaunchOutcome { pid: None }))));
}

// ---- Launchers ----

#[test]
fn token_launches_carry_terminated_buffers() {
    let launcher = TokenProcessLauncher::new();
    assert_eq!(wide_null("ab"), [97, 98, 0]);
    assert_eq!(wide_null("😀"), [0xD83D, 0xDE00, 0]);
    let spec = LaunchSpec {
        path: "a".to_owned(),
        args: texts(&["b", ""]),
        working_dir: Some("c".to_owned()),
    };
    let request = launcher.token_duplicated(&spec, Ok(())).unwrap();
    assert_eq!(request.application, [97, 0]);
    assert_eq!(request.command_line, wide_null("a b \"\""));
    assert_eq!(request.working_dir, [99, 0]);
    let bare = launcher.token_duplicated(&self::spec("a", &[]), Ok(())).unwrap();
    assert_eq!(bare.command_line, [97, 0]);
    let spec = self::spec("C:\\My Tools\\run.exe", &["two words", "plain", "say \"hi\""]);
    let request = launcher.token_duplicated(&spec, Ok(())).unwrap();
    let line = "\"C:\\My Tools\\run.exe\" \"two words\" plain \"say \\\"hi\\\"\"";
    assert_eq!(request.command_line, wide_null(line));
    assert_eq!(
        split_command_line(line),
        ["C:\\My Tools\\run.exe", "two words", "plain", "say \"hi\""]
    );
    assert!(bare.working_dir.is_empty());
}

#[test]
fn token_failures_are_told_apart() {
    let launcher = TokenProcessLauncher::new();
    assert_eq!(launcher.token_queried(Ok(())), Ok(()));
    assert_eq!(
        launcher.token_queried(Err(TokenRefusal::AccessDenied)),
        Err(LaunchError::NoInteractiveSession)
    );
    assert_eq!(
        launcher.token_queried(Err(TokenRefusal::Other("x".to_owned()))),
        Err(LaunchError::Token("x".to_owned()))
    );
    assert_eq!(
        launcher.token_duplicated(&spec("a", &[]), Err("y".to_owned())).unwrap_err(),
        LaunchError::Token("y".to_owned())
    );
    assert_eq!(launcher.process_created(Ok(7)), Ok(LaunchOutcome { pid: Some(7) }));
    assert_eq!(
        launcher.process_created(Err("z".to_owned())).unwrap_err().message(),
        "process creation failed: z"
    );
    assert_eq!(LaunchError::NoInteractiveSession.message(), "no interactive session");
    assert_eq!(LaunchError::Token("t".to_owned()).message(), "session token unavailable: t");
}

#[test]
fn stand_in_launchers_refuse_or_record() {
    let unavailable = UnavailableLauncher::new("build with --features launcher");
    assert_eq!(
        unavailable.launch(&spec("a", &[])),
        Err(LaunchError::Spawn("launcher unavailable: build with --features launcher".to_owned()))
    );
    let mut fake = FakeLauncher::default();
    assert_eq!(fake.launch(spec("a", &["1"])), Ok(LaunchOutcome { pid: Some(0) }));
    assert_eq!(fake.launch(spec("b", &[])), Ok(LaunchOutcome { pid: Some(1) }));
    assert_eq!(fake.launched().len(), 2);
    assert_eq!(fake.launched()[0].args, ["1"]);
}

// ---- Process killers ----

#[test]
fn sweeps_match_any_case_with_or_without_extension() {
    assert_eq!(normalize("EVIL.EXE"), "evil");
    assert_eq!(normalize("\u{391}\u{3A3}"), "\u{3B1}\u{3C2}");
    assert_eq!(normalize("\u{391}\u{3A3}.exe"), "\u{3B1}\u{3C2}");
    assert_eq!(normalize("Evil.exe.exe"), "evil.exe");
    let killer = WindowsProcessKiller::new();
    let running = vec![
        (4, "System".to_owned()),
        (10, "NotePad.EXE".to_owned()),
        (11, "calc.exe".to_owned()),
        (12, "notepad".to_owned()),
        (13, "notepad2.exe".to_owned()),
    ];
    assert_eq!(killer.sweep(&texts(&["notepad.exe", "SYSTEM"]), &running, 99), [4, 10, 12]);
    assert_eq!(killer.sweep(&Vec::new(), &running, 99), Vec::<u32>::new());
}

#[test]
fn the_agent_is_never_its_own_victim() {
    let killer = WindowsProcessKiller::new();
    let running = vec![(1, "agent.exe".to_owned()), (2, "agent.exe".to_owned())];
    assert_eq!(killer.sweep(&texts(&["agent"]), &running, 1), [2]);
}

#[test]
fn sweep_outcomes_count_both_ways() {
    let outcome = WindowsProcessKiller::new().outcome(&vec![true, false, true]);
    assert_eq!(outcome, KillOutcome { killed: 2, failed: 1 });
    let mut fake = FakeProcessKiller::with_killed_per_name(3);
    assert_eq!(
        fake.kill_by_image_names(&texts(&["a", "b"])),
        KillOutcome { killed: 6, failed: 0 }
    );
    assert_eq!(fake.sweeps().len(), 1);
    assert_eq!(fake.sweeps()[0], ["a", "b"]);
    assert_eq!(
        FakeProcessKiller::with_killed_per_name(u32::MAX).kill_by_image_names(&texts(&["a", "b"])).killed,
        u32::MAX
    );
    assert_eq!(FakeProcessKiller::default().kill_by_image_names(&texts(&["a"])).killed, 0);
    assert_eq!(
        UnavailableProcessKiller.kill_by_image_names(&Vec::new()),
        Err("process killer unavailable (build with --features killer on Windows)".to_owned())
    );
}

// ---- Scheduler ----

#[test]
fn deadlines_count_from_the_session_start() {
    let state = one_session(1);
    assert_eq!(SchedulerAdapter::deadline_delay_secs(&state, 1000), Some(60));
    assert_eq!(SchedulerAdapter::deadline_delay_secs(&state, 3999), Some(58));
    assert_eq!(SchedulerAdapter::deadline_delay_secs(&state, 0), Some(60));
    assert_eq!(SchedulerAdapter::deadline_delay_secs(&state, 61_000), Some(0));
    assert_eq!(SchedulerAdapter::deadline_delay_secs(&state, i64::MAX), Some(0));
    assert_eq!(SchedulerAdapter::deadline_delay_secs(&state, i64::MIN), Some(60));
    let dynamic = ScopeState { study_id: StudyId::nil(), sessions: vec![new_session(0, 0, None)] };
    assert_eq!(SchedulerAdapter::deadline_delay_secs(&dynamic, 5), None);
    assert_eq!(SchedulerAdapter::deadline_delay_secs(&ScopeState::default(), 5), None);
}

#[test]
fn heartbeats_go_out_on_the_control_channel() {
    let mut seq = 41;
    let (channel, envelope) = SchedulerAdapter::keepalive(&one_session(7), &mut seq, 99);
    assert_eq!(channel, Channel::Control);
    assert_eq!(envelope.event_type, EventType::ControlKeepalive);
    assert_eq!((envelope.seq, envelope.ts, envelope.session), (41, 99, 0));
    assert_eq!(envelope.study, StudyId::from_u128(7));
    assert_eq!(seq, 42);
    assert_eq!(KEEPALIVE_PERIOD_SECS, 15);
    let mut scheduler = SchedulerAdapter::default();
    assert!(!scheduler.stopped);
    scheduler.stop();
    assert!(scheduler.stopped);
}

#[test]
fn sequence_numbers_count_up_and_start_over() {
    let mut seq = 0;
    assert_eq!((next_seq(&mut seq), next_seq(&mut seq), seq), (0, 1, 2));
    let mut last = u64::MAX;
    assert_eq!((next_seq(&mut last), last), (u64::MAX, 0));
}

// ---- Scope stores ----

#[test]
fn missing_file_loads_default() {
    let repo = JsonScopeRepository::new("scope.json".to_owned());
    let state = repo.load(ReadOutcome::Missing).unwrap();
    assert!(state.study_id.is_nil());
    assert!(state.sessions.is_empty());
}

#[test]
fn corrupted_file_is_reported_as_corrupt() {
    let repo = JsonScopeRepository::new("scope.json".to_owned());
    let error = repo.load(ReadOutcome::Malformed("line 1".to_owned())).unwrap_err();
    assert_eq!(error, ScopeRepositoryError::Corrupt("line 1".to_owned()));
    assert_eq!(error.message(), "scope database corrupt: line 1");
    let error = repo.load(ReadOutcome::Failed("denied".to_owned())).unwrap_err();
    assert_eq!(error.message(), "scope database I/O failed: denied");
    assert_eq!(repo.load(ReadOutcome::Parsed(one_session(9))).unwrap(), one_session(9));
}

/// Runs a save whose steps give these outcomes; returns the steps and the result.
fn save_with(outcomes: Vec<StepOutcome>) -> (Vec<SaveStage>, Option<Result<(), ScopeRepositoryError>>) {
    let repo = JsonScopeRepository::new("scope.json".to_owned());
    let mut steps = Vec::new();
    let (mut run, mut action) = repo.save(Ok(vec![1, 2, 3]));
    for outcome in outcomes {
        if let SaveAction::Over(result) = action {
            return (steps, Some(result));
        }
        steps.push(run.stage);
        let next = JsonScopeRepository::save_step(run, outcome);
        run = next.0;
        action = next.1;
    }
    match action {
        SaveAction::Over(result) => (steps, Some(result)),
        _ => (steps, None),
    }
}

#[test]
fn a_save_writes_the_temporary_file_and_renames_it() {
    let repo = JsonScopeRepository::new("db/scope.json".to_owned());
    let (mut run, mut action) = repo.save(Ok(vec![7, 8]));
    let mut log = Vec::new();
    loop {
        log.push(match action {
            SaveAction::Remove(file) => format!("remove {file}"),
            SaveAction::Create(file) => format!("create {file}"),
            SaveAction::Write(bytes) => format!("write {bytes:?}"),
            SaveAction::Sync => "sync".to_owned(),
            SaveAction::Close => "close".to_owned(),
            SaveAction::Rename { from, to } => format!("rename {from} {to}"),
            SaveAction::SyncDirectory(file) => format!("directory of {file}"),
            SaveAction::Over(result) => {
                assert_eq!(result, Ok(()));
                break;
            }
        });
        let next = JsonScopeRepository::save_step(run, StepOutcome::Done);
        run = next.0;
        action = next.1;
    }
    assert_eq!(
        log,
        [
            "remove db/scope.json.tmp",
            "create db/scope.json.tmp",
            "write [7, 8]",
            "sync",
            "close",
            "rename db/scope.json.tmp db/scope.json",
            "directory of db/scope.json",
        ]
    );
}

#[test]
fn a_state_that_cannot_be_written_down_touches_no_file() {
    let repo = JsonScopeRepository::new("scope.json".to_owned());
    let (run, action) = repo.save(Err("no text".to_owned()));
    assert_eq!(run.stage, SaveStage::Finished);
    match action {
        SaveAction::Over(result) => {
            assert_eq!(result, Err(ScopeRepositoryError::Corrupt("no text".to_owned())));
        }
        other => panic!("{other:?}"),
    }
}

#[test]
fn leftover_temp_from_a_crash_does_not_block_save() {
    let done = || StepOutcome::Done;
    let (steps, result) = save_with(vec![done(), done(), done(), done(), done(), done(), done()]);
    assert_eq!(
        steps,
        [
            SaveStage::Removing,
            SaveStage::Creating,
            SaveStage::Writing,
            SaveStage::Syncing,
            SaveStage::Closing,
            SaveStage::Renaming,
            SaveStage::SyncingDirectory,
        ]
    );
    assert_eq!(result, Some(Ok(())));
    let (_, result) = save_with(vec![
        StepOutcome::NotFound("gone".to_owned()),
        done(),
        done(),
        done(),
        done(),
        done(),
        StepOutcome::Failed("no directory handle".to_owned()),
    ]);
    assert_eq!(result, Some(Ok(())));
}

#[test]
fn failed_saves_never_reach_the_rename() {
    for failing in 0..4 {
        let mut outcomes: Vec<StepOutcome> = (0..failing).map(|_| StepOutcome::Done).collect();
        outcomes.push(StepOutcome::Failed("disk full".to_owned()));
        let (steps, result) = save_with(outcomes);
        assert!(!steps.contains(&SaveStage::Renaming));
        assert_eq!(result, Some(Err(ScopeRepositoryError::Io("disk full".to_owned()))));
    }
}

#[test]
fn the_temporary_file_stands_beside_the_database() {
    let temp = |path: &str| JsonScopeRepository::new(path.to_owned()).temp_path();
    assert_eq!(temp("C:\\db\\scope.json"), "C:\\db\\scope.json.tmp");
    assert_eq!(temp("scope"), "scope.json.tmp");
    assert_eq!(temp("scope.json.tmp"), "scope.json.json.tmp");
}

/// A small disk: files by path.
type TestDisk = std::collections::BTreeMap<String, Vec<u8>>;

/// Carries a save out on the disk; the step with the given number fails.
fn save_on(
    disk: &mut TestDisk,
    repo: &JsonScopeRepository,
    bytes: Vec<u8>,
    failing: Option<usize>,
) -> Result<(), ScopeRepositoryError> {
    let (mut run, mut action) = repo.save(Ok(bytes));
    let mut open = String::new();
    let mut step = 0;
    loop {
        let outcome = if failing == Some(step) {
            match action {
                SaveAction::Over(result) => return result,
                _ => StepOutcome::Failed("disk full".to_owned()),
            }
        } else {
            match action {
                SaveAction::Remove(file) => match disk.remove(&file) {
                    Some(_) => StepOutcome::Done,
                    None => StepOutcome::NotFound("no such file".to_owned()),
                },
                SaveAction::Create(file) => {
                    assert!(disk.insert(file.clone(), Vec::new()).is_none());
                    open = file;
                    StepOutcome::Done
                }
                SaveAction::Write(bytes) => {
                    disk.get_mut(&open).unwrap().extend(bytes);
                    StepOutcome::Done
                }
                SaveAction::Rename { from, to } => match disk.remove(&from) {
                    Some(bytes) => {
                        disk.insert(to, bytes);
                        StepOutcome::Done
                    }
                    None => StepOutcome::NotFound("no such file".to_owned()),
                },
                SaveAction::Over(result) => return result,
                _ => StepOutcome::Done,
            }
        };
        step += 1;
        let next = JsonScopeRepository::save_step(run, outcome);
        run = next.0;
        action = next.1;
    }
}

/// Reads a state that was written as its study id.
fn load_from(disk: &TestDisk, repo: &JsonScopeRepository) -> ScopeState {
    let outcome = match disk.get(&repo.path) {
        Some(bytes) => match <[u8; 16]>::try_from(bytes.as_slice()) {
            Ok(id) => ReadOutcome::Parsed(ScopeState {
                study_id: StudyId::from_u128(u128::from_le_bytes(id)),
                sessions: Vec::new(),
            }),
            Err(error) => ReadOutcome::Malformed(error.to_string()),
        },
        None => ReadOutcome::Missing,
    };
    repo.load(outcome).unwrap()
}

#[test]
fn save_then_load_roundtrips_and_leaves_no_temp() {
    let repo = JsonScopeRepository::new("db/scope.json".to_owned());
    let mut disk = TestDisk::new();
    assert!(load_from(&disk, &repo).study_id.is_nil());
    disk.insert(repo.temp_path(), vec![9]);
    disk.insert("db/other".to_owned(), vec![1]);
    let state = ScopeState { study_id: StudyId::from_u128(42), ..ScopeState::default() };
    save_on(&mut disk, &repo, 42_u128.to_le_bytes().to_vec(), None).unwrap();
    assert_eq!(load_from(&disk, &repo), state);
    assert!(!disk.contains_key(&repo.temp_path()));
    assert_eq!(disk.len(), 2);
}

#[test]
fn failed_saves_leave_the_database_as_it_was() {
    let repo = JsonScopeRepository::new("db/scope.json".to_owned());
    for failing in [0, 1, 2, 3, 5] {
        let mut disk = TestDisk::new();
        save_on(&mut disk, &repo, 42_u128.to_le_bytes().to_vec(), None).unwrap();
        let result = save_on(&mut disk, &repo, 43_u128.to_le_bytes().to_vec(), Some(failing));
        assert_eq!(result, Err(ScopeRepositoryError::Io("disk full".to_owned())));
        assert_eq!(load_from(&disk, &repo).study_id, StudyId::from_u128(42));
        save_on(&mut disk, &repo, 44_u128.to_le_bytes().to_vec(), None).unwrap();
        assert_eq!(load_from(&disk, &repo).study_id, StudyId::from_u128(44));
        assert_eq!(disk.len(), 1);
    }
    let (_, result) = save_with(vec![
        StepOutcome::Done,
        StepOutcome::NotFound("The system cannot find the path specified.".to_owned()),
    ]);
    let words = "The system cannot find the path specified.";
    assert_eq!(result, Some(Err(ScopeRepositoryError::Io(words.to_owned()))));
}

#[test]
fn the_volatile_store_keeps_what_was_saved() {
    let mut repo = InMemoryScopeRepository::default();
    assert!(repo.load().unwrap().study_id.is_nil());
    repo.save(&one_session(42)).unwrap();
    assert_eq!(repo.load().unwrap(), one_session(42));
    assert_eq!(InMemoryScopeRepository::with_state(one_session(1)).load().unwrap(), one_session(1));
}

#[test]
fn load_is_always_fresh_but_save_persists_the_snapshot() {
    let repo = LocalScopeRepository::new("local-scope.json".to_owned());
    let fresh = repo.load().unwrap();
    assert!(fresh.study_id.is_nil() && fresh.sessions.is_empty());
    let (run, action) = repo.save(Ok(vec![5]));
    assert!(matches!(action, SaveAction::Remove(file) if file == "local-scope.json.tmp"));
    assert_eq!(run.path, "local-scope.json");
    assert_eq!(run.bytes, [5]);
    assert!(repo.load().unwrap().sessions.is_empty());
    assert_eq!(repo.inner.temp_path(), "local-scope.json.tmp");
}

// ---- Shell associations ----

fn wide(text: &str) -> Vec<u8> {
    text.encode_utf16().flat_map(u16::to_le_bytes).collect()
}

#[test]
fn ascii_command_with_terminator_decodes() {
    let command = r#""C:\Windows\notepad.exe" "%1""#;
    let mut buffer = wide(command);
    buffer.extend_from_slice(&[0, 0]);
    assert_eq!(decode_utf16_reg_sz(&buffer).as_deref(), Some(command));
}

#[test]
fn cyrillic_path_decodes_bomless() {
    let path = "C:\\Отчёты\\программа.exe";
    let mut buffer = wide(path);
    buffer.extend_from_slice(&[0, 0]);
    assert_eq!(decode_utf16_reg_sz(&buffer).as_deref(), Some(path));
}

#[test]
fn missing_terminator_returns_text_as_is() {
    assert_eq!(decode_utf16_reg_sz(&wide("cmd.exe")).as_deref(), Some("cmd.exe"));
}

#[test]
fn empty_buffer_is_no_value() {
    assert_eq!(decode_utf16_reg_sz(&[]), None);
}

#[test]
fn odd_trailing_byte_is_ignored() {
    let mut buffer = wide("cmd.exe");
    buffer.extend_from_slice(&[0, 0, 0xAA]);
    assert_eq!(decode_utf16_reg_sz(&buffer).as_deref(), Some("cmd.exe"));
}

#[test]
fn only_one_terminator_is_trimmed() {
    let mut buffer = wide("a");
    buffer.extend_from_slice(&[0, 0, 0, 0]);
    assert_eq!(decode_utf16_reg_sz(&buffer), Some("a\0".to_owned()));
}

#[test]
fn invalid_utf16_is_rejected() {
    assert_eq!(decode_utf16_reg_sz(&0xD800_u16.to_le_bytes()), None);
}

#[test]
fn utf16_agrees_with_the_standard_library() {
    for text in ["", "plain", "Отчёты", "a😀b", "\u{FFFF}\u{10000}\u{10FFFF}\u{E000}\u{D7FF}"] {
        let expected: Vec<u16> = text.encode_utf16().collect();
        assert_eq!(encode_utf16(text), expected);
        assert_eq!(decode_utf16(&expected).as_deref(), Some(text));
    }
    for units in [vec![0xDC00], vec![0xD800, 0x41], vec![0xDBFF], vec![0xD800, 0xD800, 0xDC00]] {
        assert_eq!(decode_utf16(&units), None);
        assert!(String::from_utf16(&units).is_err());
    }
}

/// Runs a lookup over a registry with these default values.
fn look_up(document: &str, values: &[(&str, &str)]) -> Result<String, ShellAssociationError> {
    let (mut stage, mut action) = RegistryShellAssociationAdapter::resolve(document);
    loop {
        match action {
            LookupAction::Over(result) => return result,
            LookupAction::Read(key) => {
                let value = values.iter().find(|(name, _)| *name == key).map(|(_, v)| v.to_string());
                let next = RegistryShellAssociationAdapter::resolve_step(document, stage.unwrap(), value);
                stage = next.0;
                action = next.1;
            }
        }
    }
}

#[test]
fn lookups_prefer_the_override_and_fall_back_to_the_class() {
    let class = [(".js", "JSFile"), ("JSFile\\shell\\open\\command", "wscript.exe \"%1\"")];
    assert_eq!(look_up("C:\\a.JS", &class).as_deref(), Ok("wscript.exe \"C:\\a.JS\""));
    let both = [
        (".js\\shell\\open\\command", "node.exe %1"),
        (".js", "JSFile"),
        ("JSFile\\shell\\open\\command", "wscript.exe \"%1\""),
    ];
    assert_eq!(look_up("C:\\a.js", &both).as_deref(), Ok("node.exe C:\\a.js"));
}

#[test]
fn lookups_without_a_usable_command_fail() {
    let not_found = |document: &str| ShellAssociationError::NotFound(document.to_owned());
    assert_eq!(look_up("C:\\plain", &[]), Err(not_found("C:\\plain")));
    assert_eq!(look_up("C:\\dot.", &[]), Err(not_found("C:\\dot.")));
    assert_eq!(look_up("C:\\a.js", &[]), Err(not_found("C:\\a.js")));
    assert_eq!(look_up("C:\\a.js", &[(".js", "JSFile")]), Err(not_found("C:\\a.js")));
    let empty = look_up("C:\\a.js", &[(".js\\shell\\open\\command", "  ")]).unwrap_err();
    assert_eq!(empty.message(), "association of .js is unusable: registered command is empty");
    assert_eq!(not_found("x").message(), "no association for x");
    assert_eq!(extension_of("C:\\A.Txt").as_deref(), Some(".txt"));
    assert_eq!(extension_of("C:\\A.").as_deref(), None);
}

#[test]
fn the_map_resolver_substitutes_and_replaces() {
    let mut shell = FakeShellAssociation::new();
    assert!(shell.resolve_open_command("a.js").is_err());
    shell.register(".JS", "old.exe");
    shell.register(".js", "wscript.exe \"%1\"");
    shell.register(".txt", " ");
    assert_eq!(shell.resolve_open_command("C:\\x.Js").as_deref(), Ok("wscript.exe \"C:\\x.Js\""));
    assert_eq!(
        shell.resolve_open_command("a.txt"),
        Err(ShellAssociationError::NotFound("a.txt".to_owned()))
    );
    assert!(shell.resolve_open_command("plain").is_err());
    assert_eq!(
        UnavailableShellAssociation.resolve_open_command("a.js").unwrap_err().message(),
        "association lookup failed: shell associations are unavailable (build with --features associations to resolve a.js)"
    );
}

// ---- Uploads ----

#[test]
fn oversized_file_is_rejected_preflight() {
    let error = begin_upload("big.bin".to_owned(), 1024, OpenOutcome::Opened(65_536)).unwrap_err();
    assert_eq!(error, UploadError::TooLarge { limit: 1024, read: 65_536 });
    assert_eq!(error.message(), "file exceeds the upload cap: 65536 of 1024 bytes");
    assert!(begin_upload("ok.bin".to_owned(), 1024, OpenOutcome::Opened(1024)).is_ok());
}

#[test]
fn missing_file_maps_to_not_found() {
    let error = begin_upload("nope.bin".to_owned(), 1024, OpenOutcome::NotFound).unwrap_err();
    assert_eq!(error.message(), "file not found: nope.bin");
    let error = begin_upload("x".to_owned(), 1, OpenOutcome::Failed("denied".to_owned())).unwrap_err();
    assert_eq!(error.message(), "file could not be read: denied");
}

#[test]
fn capped_stream_trips_mid_stream_on_growth() {
    let mut stream = begin_upload("grow.bin".to_owned(), 1024, OpenOutcome::Opened(16)).unwrap();
    let mut delivered = 0;
    loop {
        if stream.take_chunk(512) {
            delivered += 512;
        } else {
            break;
        }
    }
    assert_eq!(delivered, 1024);
    assert_eq!(
        stream.finish(agent::adapters::upload::SendOutcome::Failed("aborted".to_owned())),
        Err(UploadError::TooLarge { limit: 1024, read: 1536 })
    );
}

#[test]
fn uploads_report_what_the_collector_said() {
    let stream = CappedStream { limit: 10, total_read: 4, overflowed: false };
    assert_eq!(stream.finish(agent::adapters::upload::SendOutcome::Accepted), Ok(()));
    assert_eq!(
        stream
            .finish(agent::adapters::upload::SendOutcome::Rejected("503 Service Unavailable".to_owned()))
            .unwrap_err()
            .message(),
        "upload failed: controller rejected upload: 503 Service Unavailable"
    );
    assert_eq!(
        stream.finish(agent::adapters::upload::SendOutcome::Failed("reset".to_owned())),
        Err(UploadError::Transport("reset".to_owned()))
    );
    let mut huge = CappedStream { limit: u64::MAX, total_read: u64::MAX - 1, overflowed: false };
    assert!(huge.take_chunk(1));
    assert!(!huge.take_chunk(1));
}

#[test]
fn the_recording_uploader_can_be_made_to_fail() {
    let request = || UploadRequest {
        endpoint: "http://c/collect".to_owned(),
        meta: UploadMeta { path: "a.txt".to_owned(), study: StudyId::from_u128(1), session: 3 },
        directory: Directory::Temporary,
        max_blob_bytes: 10,
    };
    let mut uploader = FakeUploader::default();
    assert_eq!(uploader.upload(request(), 7), Ok(()));
    uploader.fail(true);
    assert_eq!(
        uploader.upload(request(), 7),
        Err(UploadError::Transport("forced failure".to_owned()))
    );
    assert_eq!(
        *uploader.uploads(),
        vec![RecordedUpload {
            endpoint: "http://c/collect".to_owned(),
            meta: UploadMeta { path: "a.txt".to_owned(), study: StudyId::from_u128(1), session: 3 },
            size_bytes: 7,
        }]
    );
}

// ---- IPC ----

#[test]
fn frame_headers_round_trip_and_are_capped() {
    let header = FrameHeader { payload_len: 0x0012_3456, message_type: 0x0102, flags: 0xFFEE };
    let bytes = header.to_bytes();
    assert_eq!(bytes, [0x56, 0x34, 0x12, 0x00, 0x02, 0x01, 0xEE, 0xFF]);
    assert_eq!(FrameHeader::from_bytes(&bytes), Ok(header));
    let largest = FrameHeader { payload_len: MAX_PAYLOAD, message_type: 1, flags: 0 };
    assert_eq!(FrameHeader::from_bytes(&largest.to_bytes()), Ok(largest));
    let over = FrameHeader { payload_len: MAX_PAYLOAD + 1, message_type: 1, flags: 0 };
    let error = FrameHeader::from_bytes(&over.to_bytes()).unwrap_err();
    assert_eq!(error, FrameError::PayloadTooLarge(MAX_PAYLOAD + 1));
    assert_eq!(frame_error_message(error), "frame payload over the cap: 16777217 bytes");
    assert_eq!(
        send_frame(HELLO, 5),
        Some(FrameHeader { payload_len: 5, message_type: HELLO, flags: 0 })
    );
}

#[test]
fn screenshot_payloads_split_into_number_and_bytes() {
    assert_eq!(decode_screenshot(&vec![1, 2, 0, 0, 9, 8]), Ok((513, vec![9, 8])));
    assert_eq!(decode_screenshot(&vec![0, 0, 0, 1]), Ok((0x0100_0000, Vec::new())));
    assert_eq!(decode_screenshot(&vec![1, 2, 3]), Err(FrameError::ShortScreenshot));
}

fn server() -> IpcServerAdapter {
    IpcServerAdapter::new(UserActorSettings { screencapture: true }, "nonce".to_owned()).with_wire_reporter()
}

fn hello(nonce: &str) -> Hello {
    Hello {
        protocol: IPC_PROTOCOL_VERSION,
        nonce: nonce.to_owned(),
        module_version: "1.2".to_owned(),
    }
}

fn client() -> ClientSession {
    server().new_client_session(&one_session(5))
}

#[test]
fn servers_are_assembled_with_defaults_and_overrides() {
    let server = server();
    assert_eq!(server.sddl, DEFAULT_PIPE_SDDL);
    assert_eq!(server.pipe_name, PIPE_NAME);
    assert_eq!(PIPE_NAME, r"\\.\pipe\secoutfall\user-actor-v1");
    assert_eq!(server.handshake_timeout_ms, HANDSHAKE_TIMEOUT_MS);
    assert_eq!(server.expected_client_pid, 0);
    let mut server = server
        .with_pipe_name("p".to_owned())
        .with_expected_client_pid(9)
        .with_handshake_timeout(50);
    assert_eq!((server.pipe_name.as_str(), server.expected_client_pid), ("p", 9));
    assert_eq!(server.handshake_timeout_ms, 50);
    server.stop();
    server.stop();
    assert!(server.stopped);
    assert_eq!(
        console_user_pipe_sddl(Some("S-1-5-21".to_owned())).as_deref(),
        Some("D:P(A;;GA;;;SY)(A;;GA;;;BA)(A;;GA;;;S-1-5-21)")
    );
    assert_eq!(console_user_pipe_sddl(None), None);
}

#[test]
fn nothing_is_answered_before_the_handshake() {
    let client = client();
    for message_type in [GET_CONFIG, SCREENSHOT, ERROR, 77] {
        let action = client.on_frame(message_type, &vec![0; 8]);
        assert!(matches!(action, ServeAction::Refuse(text) if text == "handshake required"));
    }
    assert!(matches!(client.on_frame(HELLO, &Vec::new()), ServeAction::ParseHello));
    assert!(
        matches!(client.on_deadline(), Some(ServeAction::RefuseAndClose(text)) if text == "handshake timeout")
    );
}

#[test]
fn impostors_get_one_strike() {
    let mut foreign = client();
    let action = foreign.on_hello(Ok(hello("nonsense")), 9, 0);
    assert!(matches!(action, ServeAction::RefuseAndClose(text) if text == "handshake rejected"));
    assert!(foreign.handshaked.is_none());
    for (pid, gate) in [(9, 10), (0, 10)] {
        assert!(matches!(
            client().on_hello(Ok(hello("nonce")), pid, gate),
            ServeAction::RefuseAndClose(_)
        ));
    }
    let mut old = hello("nonce");
    old.protocol = IPC_PROTOCOL_VERSION + 1;
    assert!(matches!(client().on_hello(Ok(old), 9, 9), ServeAction::RefuseAndClose(_)));
    let action = client().on_hello(Err("eof".to_owned()), 9, 9);
    assert!(matches!(action, ServeAction::Fail(text) if text == "bad HELLO: eof"));
}

#[test]
fn genuine_clients_are_welcomed_and_served() {
    let mut client = client();
    assert_eq!(
        client.welcome,
        Welcome { session_id: 0, config: UserActorSettings { screencapture: true } }
    );
    assert!(matches!(client.on_hello(Ok(hello("nonce")), 9, 9), ServeAction::AnnounceAndWelcome));
    assert_eq!(client.handshaked.as_deref(), Some("1.2"));
    assert!(client.on_deadline().is_none());
    assert!(matches!(client.on_frame(GET_CONFIG, &Vec::new()), ServeAction::SendWelcome));
    assert!(matches!(client.on_frame(ERROR, &Vec::new()), ServeAction::NoteError));
    assert!(matches!(client.on_frame(99, &Vec::new()), ServeAction::Close));
    assert!(matches!(
        client.on_frame(SCREENSHOT, &vec![7, 0, 0, 0, 1, 2]),
        ServeAction::Forward(ScreenshotFrame { seq: 7, jpeg }) if jpeg == [1, 2]
    ));
    assert!(matches!(
        client.on_frame(SCREENSHOT, &vec![7]),
        ServeAction::Fail(text) if text == "screenshot payload too short"
    ));
}

#[test]
fn handshakes_and_disconnects_are_reported() {
    let state = one_session(5);
    let mut seq = 3;
    let mut client = client();
    assert_eq!(client.publish_user_actor_started(&state, &mut seq, 10, 9), None);
    assert_eq!(client.publish_user_actor_stopped(&state, &mut seq, 10, None), None);
    client.on_hello(Ok(hello("nonce")), 9, 0);
    let started = client.publish_user_actor_started(&state, &mut seq, 10, 9).unwrap();
    assert_eq!(
        started.data,
        Payload::UserActorStarted(UserActorStartedData {
            module_version: "1.2".to_owned(),
            pid: Some(9),
        })
    );
    let unknown = client.publish_user_actor_started(&state, &mut seq, 10, 0).unwrap();
    assert!(matches!(unknown.data, Payload::UserActorStarted(data) if data.pid.is_none()));
    let stopped = client
        .publish_user_actor_stopped(&state, &mut seq, 11, Some("pipe broke".to_owned()))
        .unwrap();
    assert_eq!(
        stopped.data,
        Payload::UserActorStopped(UserActorStoppedData { reason: Some("pipe broke".to_owned()) })
    );
    assert_eq!((started.seq, unknown.seq, stopped.seq, seq), (3, 4, 5, 6));
    client.wire_reports = false;
    assert_eq!(client.publish_user_actor_stopped(&state, &mut seq, 12, None), None);
    assert_eq!(seq, 6);
}

#[test]
fn byte_comparison_looks_at_everything() {
    assert!(constant_time_eq(b"", b""));
    assert!(constant_time_eq(b"abc", b"abc"));
    for other in [&b"abd"[..], b"xbc", b"ab", b"abcd"] {
        assert!(!constant_time_eq(b"abc", other));
    }
}

// ---- Service control ----

#[test]
fn controls_become_stops_or_answers() {
    for signal in [ControlSignal::Stop, ControlSignal::Shutdown] {
        let (event, answer) = on_control(signal);
        assert!(matches!(event, Some(SandboxEvent::ServiceStop)));
        assert_eq!(answer, ControlAnswer::NoError);
    }
    assert_eq!(on_control(ControlSignal::Interrogate).1, ControlAnswer::NoError);
    assert!(on_control(ControlSignal::Interrogate).0.is_none());
    assert_eq!(on_control(ControlSignal::Other).1, ControlAnswer::NotImplemented);
    assert_eq!(launch_arguments("C:\\x.toml"), ["--config", "C:\\x.toml"]);
}

/// Runs an installation whose steps give these outcomes.
fn install_with(start: bool, outcomes: Vec<Result<(), &str>>) -> (Vec<InstallStage>, Result<(), ServiceOpError>) {
    let options = InstallOptions { start_after_install: start };
    let mut steps = Vec::new();
    let (mut stage, mut action) = install();
    for outcome in outcomes {
        match action {
            InstallAction::Perform(step) => steps.push(step),
            InstallAction::Over(result) => return (steps, result),
        }
        let next = install_step(options, stage, outcome.map_err(|text| text.to_owned()));
        stage = next.0;
        action = next.1;
    }
    match action {
        InstallAction::Over(result) => (steps, result),
        InstallAction::Perform(step) => panic!("{step:?} is left"),
    }
}

#[test]
fn installation_checks_creates_and_starts() {
    let missing = Err("missing");
    let (steps, result) =
        install_with(true, vec![Ok(()), Ok(()), Ok(()), missing, Ok(()), Err("dull"), Ok(())]);
    assert_eq!(result, Ok(()));
    assert_eq!(steps.last(), Some(&InstallStage::Start));
    let (steps, result) = install_with(false, vec![Ok(()), Ok(()), Ok(()), missing, Ok(()), Ok(())]);
    assert_eq!(result, Ok(()));
    assert!(!steps.contains(&InstallStage::Start));
}

#[test]
fn installation_failures_are_told_apart() {
    let words = |start: bool, outcomes: Vec<Result<(), &str>>| {
        install_with(start, outcomes).1.unwrap_err().message()
    };
    assert_eq!(words(false, vec![Err("bad toml")]), "config check failed: bad toml");
    assert_eq!(words(false, vec![Ok(()), Err("no exe")]), "io error: no exe");
    assert_eq!(words(false, vec![Ok(()), Ok(()), Err("denied")]), "SCM operation failed: denied");
    assert_eq!(
        words(false, vec![Ok(()), Ok(()), Ok(()), Ok(())]),
        "service `SecOutfallAgent` is already installed (uninstall first)"
    );
    assert_eq!(
        words(true, vec![Ok(()), Ok(()), Ok(()), Err(""), Ok(()), Ok(()), Err("stuck")]),
        "SCM operation failed: stuck"
    );
}

/// Runs a removal whose steps report these, each after this many milliseconds.
fn uninstall_with(reports: Vec<(ScmReport, u64)>) -> (Vec<UninstallStage>, Result<(), ServiceOpError>) {
    let mut steps = Vec::new();
    let (mut stage, mut action) = uninstall();
    for (report, waited_ms) in reports {
        match action {
            UninstallAction::Perform(step) => steps.push(step),
            UninstallAction::Over(result) => return (steps, result),
        }
        let next = uninstall_step(stage, report, waited_ms);
        stage = next.0;
        action = next.1;
    }
    match action {
        UninstallAction::Over(result) => (steps, result),
        UninstallAction::Perform(step) => panic!("{step:?} is left"),
    }
}

fn done() -> (ScmReport, u64) {
    (ScmReport::Done, 0)
}

fn failed(code: i32) -> (ScmReport, u64) {
    (ScmReport::Failed(Some(code), "why".to_owned()), 0)
}

#[test]
fn removal_stops_waits_and_deletes() {
    let (steps, result) = uninstall_with(vec![
        done(),
        done(),
        done(),
        failed(ERROR_SERVICE_NOT_ACTIVE),
        (ScmReport::Done, 100),
        (ScmReport::Stopped, 200),
        done(),
    ]);
    assert_eq!(result, Ok(()));
    assert_eq!(
        steps,
        [
            UninstallStage::Connect,
            UninstallStage::Open,
            UninstallStage::Query,
            UninstallStage::Stop,
            UninstallStage::Wait,
            UninstallStage::Wait,
            UninstallStage::Delete,
        ]
    );
    let (steps, _) = uninstall_with(vec![
        done(),
        done(),
        done(),
        done(),
        (ScmReport::Done, 10_000),
        done(),
    ]);
    assert_eq!(steps.last(), Some(&UninstallStage::Delete));
    let (steps, result) = uninstall_with(vec![
        done(),
        done(),
        failed(ERROR_SERVICE_MARKED_FOR_DELETE),
        done(),
    ]);
    assert_eq!((steps.len(), result), (4, Ok(())));
}

#[test]
fn removal_failures_are_told_apart() {
    let (_, result) = uninstall_with(vec![done(), failed(ERROR_SERVICE_DOES_NOT_EXIST)]);
    assert_eq!(result.unwrap_err().message(), "service `SecOutfallAgent` is not installed");
    for reports in [
        vec![failed(5)],
        vec![done(), failed(5)],
        vec![done(), done(), failed(5)],
        vec![done(), done(), done(), failed(5)],
        vec![done(), done(), (ScmReport::Stopped, 0), failed(5)],
    ] {
        let (_, result) = uninstall_with(reports);
        assert_eq!(result, Err(ServiceOpError::Scm("why".to_owned())));
    }
}

// ---- Trace records ----

fn property(name: &str, number: Option<u32>, text: Option<&str>) -> EtwProperty {
    EtwProperty {
        name: name.to_owned(),
        as_u32: number,
        as_u64: number.map(u64::from),
        as_text: text.map(|t| t.to_owned()),
    }
}

fn record(provider: EtwProvider, opcode: u8, properties: Vec<EtwProperty>) -> EtwRecord {
    EtwRecord {
        provider_id: provider.guid().to_owned(),
        opcode,
        process_id: 77,
        thread_id: 88,
        properties,
    }
}

#[test]
fn process_records_become_events() {
    let parsed = parse_event(&record(
        EtwProvider::Process,
        1,
        vec![
            property("ParentId", Some(4), None),
            property("ImageFileName", None, Some("evil.exe")),
        ],
    ));
    match parsed {
        Some(SourceEvent::ProcessStarted(ProcessStartedData { pid, parent_pid, name, .. })) => {
            assert_eq!((pid, parent_pid, name.as_str()), (77, Some(4), "evil.exe"));
        }
        other => panic!("unexpected {other:?}"),
    }
}

#[test]
fn unknown_records_are_ignored() {
    assert_eq!(parse_event(&record(EtwProvider::FileIo, 15, Vec::new())), None);
    let mut foreign = record(EtwProvider::Process, 1, Vec::new());
    foreign.provider_id = "{00000000-0000-0000-0000-000000000000}".to_owned();
    assert_eq!(parse_event(&foreign), None);
    assert_eq!(parse_event(&record(EtwProvider::FileIo, 32, Vec::new())), None);
}

#[test]
fn file_records_carry_names_and_sizes() {
    let parsed = parse_event(&record(
        EtwProvider::FileIo,
        20,
        vec![
            property("ProcessId", Some(5), None),
            property("IoSize", Some(512), None),
            property("FileName", None, Some("C:\\a.txt")),
        ],
    ));
    match parsed {
        Some(SourceEvent::FileWritten(data)) => {
            assert_eq!(data.pid, 5);
            assert_eq!(data.io_size, Some(512));
        }
        other => panic!("unexpected {other:?}"),
    }
}

#[test]
fn the_trace_counts_what_it_drops() {
    let mut trace = EtwKernelTraceAdapter::new(8, "probe".to_owned());
    trace.offered(true);
    trace.offered(false);
    trace.offered(false);
    assert_eq!((trace.capacity, trace.loss_count()), (8, 2));
    assert_eq!(trace.session_name, "probe");
}

#[test]
fn scripts_replay_as_often_as_asked() {
    let source = FakeEventSource::new(vec![
        SandboxEvent::SessionDeadline,
        SandboxEvent::ScreenshotReceived(ScreenshotFrame { seq: 1, jpeg: vec![2] }),
    ]);
    for _ in 0..2 {
        let events = source.replay();
        assert_eq!(events.len(), 2);
        assert!(matches!(events[0], SandboxEvent::SessionDeadline));
        assert!(matches!(
            &events[1],
            SandboxEvent::ScreenshotReceived(frame) if frame.seq == 1 && frame.jpeg == [2]
        ));
    }
}
