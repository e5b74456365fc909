//! The plugins, driven as a host drives them.

use agent::app::builder::{
    assemble, lifecycle_order, load_scope_state, local_config, pipeline_order, target_image_name,
    with_study_id, AgentPlugins, PluginName,
};
use agent::app::event::{AgentBusEvent, SandboxEvent, ScreenshotFrame, SourceEvent};
use agent::app::worker::JobQueue;
use agent::domain::scope::{new_session, ScopeState};
use agent::domain::study_id::StudyId;
use agent::plugins::drops_collector::{
    cap_message, part_file_name, CappedCopy, CollectAction, CollectEvent, DropsCollectorPlugin,
};
use agent::plugins::event_reporter::EventReporterPlugin;
use agent::plugins::scoring::ScoringPlugin;
use agent::plugins::screenshot_intake::{
    frame_file_name, FrameAction, FrameJob, ScreenshotIntakePlugin,
};
use agent::plugins::session_manager::{
    drops_histogram, open_session_if_needed, FinalizeAction, PipelineAction, SessionManagerDeps,
    SessionManagerPlugin, StartAction,
};
use agent::plugins::statistics::{SessionStatistics, StatisticsPlugin, StatisticsSnapshot};
use agent::plugins::target_launcher::{
    resolve_spec, LaunchAction, LaunchEvent, TargetLauncherDeps, TargetLauncherPlugin,
};
use agent::ports::{Channel, Directory, LaunchError, LaunchOutcome, ShellAssociationError};
use agent::protocol::config::{
    AgentConfig, DropsConfig, EventVerbosity, LaunchMechanism, ScoringConfig, ScreenshotsConfig, TargetConfig,
    TimeConfig,
};
use agent::protocol::events::EventType;
use agent::protocol::payload::{
    FileReleasedData, FileWrittenData, FinalizeReason, Launcher, Payload, ProcessStartedData, ProcessStoppedData,
};

fn texts(items: &[&str]) -> Vec<String> {
    items.iter().map(|item| item.to_string()).collect()
}

fn study() -> ScopeState {
    ScopeState { study_id: StudyId::from_u128(0xBEEF), sessions: Vec::new() }
}

fn deps() -> SessionManagerDeps {
    SessionManagerDeps {
        processes_to_terminate: texts(&["helper.exe"]),
        uptimes: vec![60, 120],
        autoshutdown: true,
        time: TimeConfig { timestamp: 1_000_000, offset_secs: 3600 },
        skip_time_manipulation: false,
        skip_reboot_and_shutdown: false,
        agent_version: "9.9".to_owned(),
    }
}

/// Runs a start; returns what was published and the clock that was set.
fn start(plugin: &SessionManagerPlugin, state: &ScopeState, clock_works: bool) -> (Vec<EventType>, Option<i64>) {
    let mut seq = 0;
    let mut published = Vec::new();
    let mut clock = None;
    let mut run = plugin.start(state, 5000).unwrap();
    let mut clock_set = false;
    loop {
        match plugin.start_step(&mut run, state, &mut seq, 6000, clock_set) {
            StartAction::SetClock(target) => {
                clock = Some(target);
                clock_set = clock_works;
            }
            StartAction::Publish(envelope) => published.push(envelope.event_type),
            StartAction::Done => return (published, clock),
        }
    }
}

/// Runs a finalization; returns what happened, in words.
fn finalize(plugin: &mut SessionManagerPlugin, state: &mut ScopeState, now_ms: i64, shifts: bool) -> Vec<String> {
    let mut seq = 0;
    let mut log = Vec::new();
    let mut run = match plugin.finalize_session(state, now_ms, FinalizeReason::Deadline) {
        Some(run) => run,
        None => return log,
    };
    let mut shifted = false;
    loop {
        match plugin.finalize_step(&mut run, state, &mut seq, shifted) {
            FinalizeAction::Publish(channel, envelope) => {
                assert_eq!(envelope.ts, now_ms);
                let place = if channel == Channel::Control { "control" } else { "event" };
                log.push(format!("{place} {}", envelope.event_type.as_str()));
            }
            FinalizeAction::ShiftClock(target) => {
                log.push(format!("shift {target}"));
                shifted = shifts;
            }
            FinalizeAction::KillProcesses(names) => log.push(format!("kill {}", names.join(","))),
            FinalizeAction::Persist(snapshot) => {
                assert!(snapshot.current_session().unwrap().ended_at_ms.is_some());
                log.push("persist".to_owned());
            }
            FinalizeAction::Done => return log,
        }
    }
}

#[test]
fn boots_open_numbered_sessions_and_stamp_leftovers() {
    let mut state = study();
    let uptimes = vec![60, 120];
    open_session_if_needed(&uptimes, &mut state, 10);
    open_session_if_needed(&uptimes, &mut state, 20);
    open_session_if_needed(&uptimes, &mut state, 30);
    let ids: Vec<u32> = state.sessions.iter().map(|s| s.id).collect();
    assert_eq!(ids, [0, 1, 2]);
    let planned: Vec<Option<u64>> = state.sessions.iter().map(|s| s.scheduled_duration_secs).collect();
    assert_eq!(planned, [Some(60), Some(120), None]);
    assert!(state.sessions[0].abandoned && state.sessions[1].abandoned);
    assert_eq!(state.sessions[0].ended_at_ms, Some(20));
    assert!(!state.sessions[2].abandoned);
    assert!(state.sessions[2].ended_at_ms.is_none());
}

#[test]
fn the_first_session_starts_with_the_fake_clock() {
    let plugin = SessionManagerPlugin::new(deps());
    let mut state = study();
    plugin.init(&mut state, 0);
    let (published, clock) = start(&plugin, &state, true);
    assert_eq!(clock, Some(1_000_000_000));
    assert_eq!(
        published,
        [EventType::ClockAdjusted, EventType::AgentState, EventType::SessionStarted]
    );
    let (published, _) = start(&plugin, &state, false);
    assert_eq!(published, [EventType::AgentState, EventType::SessionStarted]);
    plugin.init(&mut state, 1);
    let (published, clock) = start(&plugin, &state, true);
    assert_eq!(clock, None);
    assert_eq!(published, [EventType::AgentState, EventType::SessionStarted]);
}

#[test]
fn finalization_follows_the_documented_order() {
    let mut plugin = SessionManagerPlugin::new(deps());
    let mut state = study();
    plugin.init(&mut state, 0);
    let log = finalize(&mut plugin, &mut state, 1000, true);
    assert_eq!(
        log,
        [
            "event study.score",
            "event study.drops_summary",
            "event session.finalizing",
            "shift 3601000",
            "event clock.adjusted",
            "kill helper.exe",
            "persist",
            "event session.ended",
            "control study.reboot_requested",
        ]
    );
    assert!(plugin.finalize_done);
    assert!(finalize(&mut plugin, &mut state, 2000, true).is_empty());
}

#[test]
fn the_last_planned_session_asks_for_the_shutdown() {
    let mut state = study();
    let mut plugin = SessionManagerPlugin::new(deps());
    plugin.init(&mut state, 0);
    plugin.init(&mut state, 1);
    let log = finalize(&mut plugin, &mut state, 1000, false);
    assert_eq!(log.last().unwrap(), "control study.shutdown_requested");
    assert!(!log.contains(&"event clock.adjusted".to_owned()));
    let mut endless = deps();
    endless.uptimes = Vec::new();
    let mut plugin = SessionManagerPlugin::new(endless);
    let log = finalize(&mut plugin, &mut state, 1000, false);
    assert_eq!(log.last().unwrap(), "control study.reboot_requested");
}

#[test]
fn switched_off_steps_are_left_out() {
    let mut quiet = deps();
    quiet.processes_to_terminate = Vec::new();
    quiet.skip_time_manipulation = true;
    quiet.skip_reboot_and_shutdown = true;
    let mut plugin = SessionManagerPlugin::new(quiet);
    let mut state = study();
    plugin.init(&mut state, 0);
    assert_eq!(start(&plugin, &state, true).1, None);
    assert_eq!(
        finalize(&mut plugin, &mut state, 7, true),
        [
            "event study.score",
            "event study.drops_summary",
            "event session.finalizing",
            "persist",
            "event session.ended",
        ]
    );
}

#[test]
fn dead_scopes_stops_and_deadlines_finalize() {
    let mut plugin = SessionManagerPlugin::new(deps());
    assert_eq!(plugin.on_bus(&AgentBusEvent::ScopeDied), Some(FinalizeReason::DeadScope));
    assert_eq!(plugin.on_bus(&AgentBusEvent::SessionScoreRaised { score: 5 }), None);
    plugin.on_bus(&AgentBusEvent::SessionScoreRaised { score: 3 });
    assert_eq!(plugin.max_score, 5);
    plugin.deps.autoshutdown = false;
    assert_eq!(plugin.on_bus(&AgentBusEvent::ScopeDied), None);
    assert_eq!(
        plugin.pre(&SandboxEvent::SessionDeadline),
        PipelineAction::Finalize(FinalizeReason::Deadline)
    );
    assert_eq!(
        plugin.pre(&SandboxEvent::ServiceStop),
        PipelineAction::Finalize(FinalizeReason::InboundRequest)
    );
    assert_eq!(plugin.pre(&SandboxEvent::PersistTick), PipelineAction::Persist);
    plugin.finalized = true;
    assert_eq!(plugin.pre(&SandboxEvent::PersistTick), PipelineAction::Nothing);
    assert_eq!(plugin.pre(&SandboxEvent::StatsTick), PipelineAction::Nothing);
}

#[test]
fn drops_are_summed_up_by_extension() {
    let mut state = study();
    assert!(drops_histogram(&state).is_empty());
    state.sessions.push(new_session(0, 0, None));
    for path in ["C:\\a.TXT", "C:\\b.txt", "C:\\plain", "C:\\x.exe"] {
        state.sessions[0].observed_drops.insert(path.to_owned());
    }
    assert_eq!(
        drops_histogram(&state),
        vec![("".to_owned(), 1), ("exe".to_owned(), 1), ("txt".to_owned(), 2)]
    );
}

// ---- Tracker, reporter, scoring and statistics, together ----

fn process_started(pid: u32, parent: Option<u32>, name: &str) -> SandboxEvent {
    SandboxEvent::Source(SourceEvent::ProcessStarted(ProcessStartedData {
        pid,
        parent_pid: parent,
        name: name.to_owned(),
        image_path: None,
        command_line: None,
        os_session_id: Some(1),
    }))
}

fn process_stopped(pid: u32, name: &str) -> SandboxEvent {
    SandboxEvent::Source(SourceEvent::ProcessStopped(ProcessStoppedData { pid, name: name.to_owned() }))
}

fn plugins() -> AgentPlugins {
    let mut config = AgentConfig::default();
    config.target.path = "C:\\Targets\\Evil.exe".to_owned();
    config.drops.extensions = texts(&[".txt"]);
    config.scoring = ScoringConfig { cli_started: 4, drop_observed: 5 };
    assemble(config, "1.0".to_owned(), SessionStatistics::default())
}

#[test]
fn the_scope_grows_drops_and_dies() {
    let mut agent = plugins();
    let mut state = study();
    agent.session_manager.init(&mut state, 0);
    agent.tracker.start(&state);
    let entered = agent.tracker.pre(&mut state, &process_started(10, None, "EVIL.exe"), 1);
    assert_eq!(
        entered,
        [
            AgentBusEvent::TargetLaunched { name: "EVIL.exe".to_owned() },
            AgentBusEvent::ProcessEnteredScope { pid: 10, name: "EVIL.exe".to_owned() },
        ]
    );
    assert!(agent.tracker.pre(&mut state, &process_started(20, None, "calc.exe"), 1).is_empty());
    let child = agent.tracker.pre(&mut state, &process_started(11, Some(10), "cmd.exe"), 2);
    assert_eq!(child.len(), 1);
    let written = SandboxEvent::Source(SourceEvent::FileWritten(FileWrittenData {
        pid: 11,
        file_object: None,
        file_key: None,
        file_name: Some("C:\\p.txt".to_owned()),
        io_size: None,
        offset: None,
    }));
    let observed = agent.tracker.pre(&mut state, &written, 3);
    assert_eq!(
        observed,
        [AgentBusEvent::DropObserved { path: "C:\\p.txt".to_owned(), pid: Some(11) }]
    );
    assert!(agent.tracker.pre(&mut state, &written, 4).is_empty());
    let released = || FileReleasedData {
        pid: 11,
        file_object: None,
        file_key: None,
        file_name: Some("C:\\p.txt".to_owned()),
    };
    let cleaned = SandboxEvent::Source(SourceEvent::FileCleanedUp(released()));
    let closed = SandboxEvent::Source(SourceEvent::FileClosed(released()));
    assert_eq!(
        agent.tracker.pre(&mut state, &cleaned, 5),
        [AgentBusEvent::DropClosed { path: "C:\\p.txt".to_owned() }]
    );
    assert!(agent.tracker.pre(&mut state, &closed, 6).is_empty());
    assert_eq!(agent.tracker.pre(&mut state, &process_stopped(11, "cmd.exe"), 7).len(), 1);
    assert_eq!(
        agent.tracker.pre(&mut state, &process_stopped(10, "evil.exe"), 8),
        [
            AgentBusEvent::ProcessExitedScope { pid: 10, name: "evil.exe".to_owned() },
            AgentBusEvent::ScopeDied,
        ]
    );
    assert!(agent.tracker.pre(&mut state, &process_stopped(20, "calc.exe"), 9).is_empty());
}

#[test]
fn announced_images_are_expected() {
    let mut agent = plugins();
    let mut state = study();
    agent.session_manager.init(&mut state, 0);
    agent.session_manager.init(&mut state, 1);
    agent.tracker.start(&state);
    assert!(agent.tracker.pre(&mut state, &process_started(1, None, "evil.exe"), 1).is_empty());
    agent.tracker.on_bus(&AgentBusEvent::ExtendScopeExpectation { name: "WScript.exe".to_owned() });
    assert_eq!(agent.tracker.pre(&mut state, &process_started(2, None, "wscript.EXE"), 1).len(), 1);
}

#[test]
fn verbosity_decides_what_is_forwarded() {
    let state = study();
    let event = process_started(1, None, "a.exe");
    let mut seq = 0;
    let full = EventReporterPlugin::new(EventVerbosity::Full);
    let envelope = full.pre(&state, &mut seq, 5, &event).unwrap();
    assert_eq!(envelope.event_type, EventType::ProcessStarted);
    assert_eq!((envelope.seq, seq), (0, 1));
    let silent = EventReporterPlugin::new(EventVerbosity::Silent);
    assert_eq!(silent.pre(&state, &mut seq, 5, &event), None);
    assert_eq!(seq, 1);
    let observed = AgentBusEvent::DropObserved { path: "p".to_owned(), pid: None };
    assert_eq!(
        silent.on_bus(&state, &mut seq, 5, observed).unwrap().event_type,
        EventType::DropObserved
    );
    assert_eq!(
        silent.on_bus(&state, &mut seq, 5, AgentBusEvent::ScopeDied).unwrap().event_type,
        EventType::ScopeDied
    );
    let entered = AgentBusEvent::ProcessEnteredScope { pid: 1, name: "x".to_owned() };
    assert_eq!(silent.on_bus(&state, &mut seq, 5, entered), None);
}

#[test]
fn scores_only_rise() {
    let mut scoring = ScoringPlugin::new(&ScoringConfig { cli_started: 4, drop_observed: 5 });
    let shell = AgentBusEvent::ProcessEnteredScope { pid: 1, name: "cmd.exe".to_owned() };
    let drop = AgentBusEvent::DropObserved { path: "p".to_owned(), pid: None };
    assert_eq!(scoring.on_bus(&shell), Some(AgentBusEvent::SessionScoreRaised { score: 4 }));
    assert_eq!(scoring.on_bus(&shell), None);
    assert_eq!(scoring.on_bus(&drop), Some(AgentBusEvent::SessionScoreRaised { score: 5 }));
    assert_eq!(scoring.on_bus(&AgentBusEvent::ScopeDied), None);
    assert_eq!(scoring.max_score(), 5);
}

#[test]
fn statistics_count_both_sides() {
    let mut plugin = StatisticsPlugin::new(SessionStatistics::default());
    let state = study();
    plugin.pre(&state, &process_started(1, None, "a"));
    plugin.pre(&state, &SandboxEvent::SessionDeadline);
    plugin.pre(&state, &SandboxEvent::InteractiveSessionReady);
    plugin.pre(&state, &SandboxEvent::ScreenshotReceived(ScreenshotFrame::default()));
    plugin.on_bus(&AgentBusEvent::DropObserved { path: "p".to_owned(), pid: None });
    plugin.on_bus(&AgentBusEvent::ProcessEnteredScope { pid: 1, name: "a".to_owned() });
    plugin.on_bus(&AgentBusEvent::ProcessExitedScope { pid: 1, name: "a".to_owned() });
    let report = plugin.pre(&state, &SandboxEvent::StatsTick).unwrap();
    assert_eq!(
        report.snapshot,
        StatisticsSnapshot {
            source_events: 1,
            screenshots: 1,
            lifecycle_events: 1,
            drops_observed: 1,
            scope_entered: 1,
            scope_exited: 1,
            ticks: 1,
        }
    );
    assert_eq!(plugin.snapshot(), report.snapshot);
    assert_eq!(report.study_id, StudyId::from_u128(0xBEEF));
}

// ---- Drops ----

fn drops_config() -> DropsConfig {
    DropsConfig {
        path: "drops".to_owned(),
        extensions: texts(&["*"]),
        max_size: 100,
        limit_per_session: 2,
        upload_uri: Some("http://c".to_owned()),
    }
}

/// Collects a drop of this content; returns the wire events.
fn collect(plugin: &mut DropsCollectorPlugin, path: &str, digest: [u8; 32], rename_works: bool) -> Vec<EventType> {
    let mut state = study();
    state.sessions.push(new_session(3, 0, None));
    let mut seq = 0;
    let mut published = Vec::new();
    let mut action = match plugin.collect_drop(&state, path.to_owned()) {
        Some(action) => action,
        None => return published,
    };
    loop {
        let event = match action {
            CollectAction::Stat(_) => CollectEvent::Size(Some(10)),
            CollectAction::MakeDirectory => CollectEvent::Directory(true),
            CollectAction::Copy { max_bytes, .. } => {
                assert_eq!(max_bytes, 100);
                CollectEvent::Copied(Some(digest))
            }
            CollectAction::RemovePart(_) => CollectEvent::Removed,
            CollectAction::Rename { .. } => CollectEvent::Renamed(rename_works),
            CollectAction::Measure(_) => CollectEvent::Measured(10),
            CollectAction::Publish(envelope) => {
                published.push(envelope.event_type);
                CollectEvent::Published
            }
            CollectAction::Upload(request) => {
                assert_eq!(request.directory, Directory::Configured("drops".to_owned()));
                CollectEvent::Uploaded(true)
            }
            CollectAction::Done => return published,
        };
        action = plugin.collect_step(event, &mut seq, 5);
    }
}

#[test]
fn kept_copies_are_reported_and_spend_the_budget() {
    let mut plugin = DropsCollectorPlugin::new(drops_config());
    let both = [EventType::DropCopied, EventType::DropUploaded];
    assert!(collect(&mut plugin, "C:\\a.txt", [9; 32], false).is_empty());
    assert_eq!(plugin.collected, 0);
    assert_eq!(collect(&mut plugin, "C:\\a.txt", [1; 32], true), both);
    assert!(collect(&mut plugin, "C:\\b.txt", [1; 32], true).is_empty());
    assert_eq!(plugin.collected, 1);
    assert_eq!(collect(&mut plugin, "C:\\c.txt", [2; 32], true), both);
    assert!(collect(&mut plugin, "C:\\d.txt", [3; 32], true).is_empty());
    assert_eq!(plugin.collected, 2);
    assert_eq!(
        DropsCollectorPlugin::on_bus(AgentBusEvent::DropClosed { path: "p".to_owned() }).as_deref(),
        Some("p")
    );
    assert_eq!(DropsCollectorPlugin::on_bus(AgentBusEvent::ScopeDied), None);
}

#[test]
fn copies_are_named_by_session_number_hash_and_extension() {
    let mut plugin = DropsCollectorPlugin::new(drops_config());
    let mut state = study();
    state.sessions.push(new_session(3, 0, None));
    let mut seq = 0;
    plugin.collect_drop(&state, "C:\\x.TXT".to_owned());
    plugin.collect_step(CollectEvent::Size(Some(1)), &mut seq, 0);
    match plugin.collect_step(CollectEvent::Directory(true), &mut seq, 0) {
        CollectAction::Copy { source, part, .. } => {
            assert_eq!((source.as_str(), part.as_str()), ("C:\\x.TXT", "3-0.part"));
        }
        other => panic!("unexpected {other:?}"),
    }
    match plugin.collect_step(CollectEvent::Copied(Some([0xAB; 32])), &mut seq, 0) {
        CollectAction::Rename { part, name } => {
            assert_eq!((part.as_str(), name.as_str()), ("3-0.part", "3-0-abababab.txt"));
        }
        other => panic!("unexpected {other:?}"),
    }
    assert_eq!(part_file_name(1, 2), "1-2.part");
}

#[test]
fn oversized_and_vanished_drops_cost_nothing() {
    for size in [Some(101), None] {
        let mut plugin = DropsCollectorPlugin::new(drops_config());
        let mut seq = 0;
        plugin.collect_drop(&study(), "C:\\x".to_owned());
        let action = plugin.collect_step(CollectEvent::Size(size), &mut seq, 0);
        assert!(matches!(action, CollectAction::Done));
        assert_eq!((plugin.collected, plugin.name_seq, seq), (0, 0, 0));
    }
}

#[test]
fn capped_copies_hash_what_they_took() {
    let mut copy = CappedCopy::new(4);
    assert!(copy.accept(b"ab"));
    assert!(!copy.accept(b"cde"));
    assert!(copy.accept(b"c"));
    assert_eq!(copy.total(), 3);
    // SHA-256 of "abc".
    let digest: String = copy.digest().iter().map(|b| format!("{b:02x}")).collect();
    assert_eq!(digest, "ba7816bf8f01cfea414140de5dae2223b00361a396177a9cb410ff61f20015ad");
    // SHA-256 of nothing.
    let digest: String = CappedCopy::new(0).digest().iter().map(|b| format!("{b:02x}")).collect();
    assert_eq!(digest, "e3b0c44298fc1c149afbf4c8996fb92427ae41e4649b934ca495991b7852b855");
    assert_eq!(cap_message(7), "drop grew past cap 7 while copying");
}

// ---- Screenshots ----

fn shots(save: bool, upload: bool) -> ScreenshotsConfig {
    ScreenshotsConfig {
        path: "shots".to_owned(),
        save,
        max_per_session: 1,
        upload_uri: if upload { Some("http://c".to_owned()) } else { None },
    }
}

fn frame() -> SandboxEvent {
    SandboxEvent::ScreenshotReceived(ScreenshotFrame { seq: 4, jpeg: vec![1, 2, 3] })
}

#[test]
fn frames_pass_the_gate_until_the_quota_is_spent() {
    let mut plugin = ScreenshotIntakePlugin::new(shots(true, true), true);
    let mut seq = 0;
    let mut event = frame();
    let (envelope, job) = plugin.pre(&study(), &mut seq, 5, &mut event).unwrap();
    assert_eq!(envelope.event_type, EventType::ScreenshotReceived);
    assert_eq!(job.frame.jpeg, [1, 2, 3]);
    assert!(matches!(event, SandboxEvent::ScreenshotReceived(rest) if rest.jpeg.is_empty()));
    assert!(plugin.pre(&study(), &mut seq, 5, &mut frame()).is_none());
    let mut off = ScreenshotIntakePlugin::new(shots(true, true), false);
    assert!(off.pre(&study(), &mut seq, 5, &mut frame()).is_none());
    assert!(plugin.pre(&study(), &mut seq, 5, &mut SandboxEvent::StatsTick).is_none());
}

/// Runs a frame's job; returns what happened, in words.
fn run_frame(config: &ScreenshotsConfig, upload_works: bool) -> Vec<String> {
    let job = FrameJob {
        study_id: StudyId::from_u128(1),
        session_id: 2,
        frame: ScreenshotFrame { seq: 4, jpeg: vec![1, 2, 3] },
    };
    let mut seq = 0;
    let mut log = Vec::new();
    let (mut run, mut action) = match ScreenshotIntakePlugin::process_frame(config, job) {
        Some(begun) => begun,
        None => return log,
    };
    loop {
        let mut ok = true;
        match action {
            FrameAction::MakeDirectory(path) => log.push(format!("mkdir {path}")),
            FrameAction::Write { directory, name, jpeg } => {
                log.push(format!("write {directory:?} {name} {}", jpeg.len()));
            }
            FrameAction::Upload(request) => {
                log.push(format!("upload {} {}", request.meta.path, request.max_blob_bytes));
                ok = upload_works;
            }
            FrameAction::Publish(envelope) => log.push(envelope.event_type.as_str().to_owned()),
            FrameAction::Remove { directory, name } => log.push(format!("remove {directory:?} {name}")),
            FrameAction::Done => return log,
        }
        action = ScreenshotIntakePlugin::frame_step(config, &mut run, ok, &mut seq, 5);
    }
}

#[test]
fn frames_are_saved_and_uploaded_as_configured() {
    assert!(run_frame(&shots(false, false), true).is_empty());
    assert_eq!(
        run_frame(&shots(true, false), true),
        ["mkdir shots", "write Configured(\"shots\") screenshot-2-4.jpeg 3"]
    );
    assert_eq!(
        run_frame(&shots(false, true), true),
        [
            "write Temporary screenshot-2-4.jpeg 3",
            "upload screenshot-2-4.jpeg 3",
            "screenshot.uploaded",
            "remove Temporary screenshot-2-4.jpeg",
        ]
    );
    assert_eq!(run_frame(&shots(false, true), false).last().unwrap(), "remove Temporary screenshot-2-4.jpeg");
    assert_eq!(run_frame(&shots(true, true), true).last().unwrap(), "screenshot.uploaded");
    assert_eq!(frame_file_name(1, 2), "screenshot-1-2.jpeg");
}

// ---- Detonation ----

fn launcher(path: &str) -> TargetLauncherPlugin {
    TargetLauncherPlugin::new(TargetLauncherDeps {
        target: TargetConfig { path: path.to_owned(), args: texts(&["-x"]), every_session: false },
        marker: "explorer".to_owned(),
        launch_mechanism: LaunchMechanism::SchedTask,
    })
}

#[test]
fn the_first_marker_sighting_detonates_once() {
    let mut state = study();
    state.sessions.push(new_session(0, 0, None));
    let mut plugin = launcher("evil.exe");
    assert!(!plugin.pre(&state, &process_started(1, None, "calc.exe")));
    assert!(plugin.pre(&state, &process_started(1, None, "Explorer.EXE")));
    assert!(!plugin.pre(&state, &process_started(2, None, "explorer.exe")));
    state.sessions.push(new_session(1, 0, None));
    assert!(!launcher("evil.exe").pre(&state, &process_started(1, None, "explorer.exe")));
    let mut always = launcher("evil.exe");
    always.deps.target.every_session = true;
    assert!(always.pre(&state, &process_started(1, None, "explorer.exe")));
}

#[test]
fn executables_launch_directly_behind_their_expectation() {
    let plugin = launcher("C:\\T\\evil.EXE");
    let state = study();
    let mut seq = 0;
    let (run, action) = TargetLauncherPlugin::launch_flow(&plugin.deps);
    assert!(matches!(
        action,
        LaunchAction::Expect(AgentBusEvent::ExtendScopeExpectation { name }) if name == "evil.EXE"
    ));
    let (run, action) = TargetLauncherPlugin::launch_step(
        &plugin.deps, run, LaunchEvent::Expected, &state, &mut seq, 1,
    );
    assert!(matches!(action, LaunchAction::Launch(spec) if spec.path == "C:\\T\\evil.EXE" && spec.args == ["-x"]));
    let launched = LaunchEvent::Launched(Ok(LaunchOutcome { pid: Some(7) }));
    let (_, action) = TargetLauncherPlugin::launch_step(&plugin.deps, run, launched, &state, &mut seq, 1);
    match action {
        LaunchAction::Publish(envelope) => match envelope.data {
            Payload::TargetLaunched(data) => {
                assert_eq!((data.pid, data.args.as_deref()), (Some(7), Some("-x")));
                assert_eq!(data.launcher, Launcher::SchedTask);
            }
            other => panic!("unexpected {other:?}"),
        },
        other => panic!("unexpected {other:?}"),
    }
}

#[test]
fn documents_launch_through_their_association() {
    let plugin = launcher("C:\\T\\evil.js");
    let state = study();
    let mut seq = 0;
    let (run, action) = TargetLauncherPlugin::launch_flow(&plugin.deps);
    assert!(matches!(action, LaunchAction::Resolve(path) if path == "C:\\T\\evil.js"));
    let command = "\"C:\\Windows\\wscript.exe\" \"C:\\T\\evil.js\"".to_owned();
    let (run, action) = TargetLauncherPlugin::launch_step(
        &plugin.deps, run, LaunchEvent::Resolved(Ok(command)), &state, &mut seq, 1,
    );
    assert!(matches!(
        action,
        LaunchAction::Expect(AgentBusEvent::ExtendScopeExpectation { name }) if name == "wscript.exe"
    ));
    let (run, action) = TargetLauncherPlugin::launch_step(
        &plugin.deps, run, LaunchEvent::Expected, &state, &mut seq, 1,
    );
    assert!(matches!(action, LaunchAction::Launch(spec) if spec.args == ["C:\\T\\evil.js", "-x"]));
    let failed = LaunchEvent::Launched(Err(LaunchError::NoInteractiveSession));
    let (_, action) = TargetLauncherPlugin::launch_step(&plugin.deps, run, failed, &state, &mut seq, 1);
    assert!(matches!(action, LaunchAction::Failed(text) if text == "target launch failed: no interactive session"));
}

#[test]
fn detonations_without_a_command_fail() {
    let plugin = launcher("C:\\T\\evil.js");
    let state = study();
    let mut seq = 0;
    let resolve = |event: LaunchEvent, seq: &mut u64| {
        let (run, _) = TargetLauncherPlugin::launch_flow(&plugin.deps);
        TargetLauncherPlugin::launch_step(&plugin.deps, run, event, &state, seq, 1).1
    };
    let missing = ShellAssociationError::NotFound("C:\\T\\evil.js".to_owned());
    assert!(matches!(
        resolve(LaunchEvent::Resolved(Err(missing)), &mut seq),
        LaunchAction::Failed(text) if text == "association resolution failed: no association for C:\\T\\evil.js"
    ));
    assert!(matches!(
        resolve(LaunchEvent::Resolved(Ok("  ".to_owned())), &mut seq),
        LaunchAction::Failed(text) if text == "association command for `C:\\T\\evil.js` resolved to nothing"
    ));
    assert!(resolve_spec("", &plugin.deps.target).is_none());
}

// ---- Job queues ----

#[test]
fn processes_submitted_jobs_in_order_and_never_loses_silently() {
    let mut queue: JobQueue<u32> = JobQueue::spawn(16);
    for job in 0..24_u32 {
        let _ = queue.submit(job);
    }
    let mut done = Vec::new();
    for _ in 0..10 {
        done.extend(queue.take());
    }
    queue.stop();
    done.extend(queue.take());
    assert_eq!(done.len() as u64 + queue.dropped_count(), 24);
    assert_eq!(done, (0..u32::try_from(done.len()).unwrap_or(0)).collect::<Vec<_>>(), "FIFO order");
    assert_eq!(queue.dropped_count(), 14);
}

#[test]
fn full_queue_drops_and_counts() {
    let mut queue: JobQueue<u32> = JobQueue::spawn(2);
    let mut accepted = 0;
    while queue.submit(1) {
        accepted += 1;
    }
    assert!(accepted >= 1, "at least the first submit lands");
    assert_eq!(queue.dropped_count(), 1, "exactly one refusal counted");
    queue.stop();
}

#[test]
fn stop_accounts_every_job() {
    let mut queue: JobQueue<u32> = JobQueue::spawn(8);
    assert!(queue.submit(0));
    for job in 1..5_u32 {
        queue.submit(job);
    }
    let mut done: u32 = 0;
    if queue.take() == Some(0) {
        done += 1;
    }
    queue.stop();
    while queue.take().is_some() {
        done += 1;
    }
    assert!((1..=5).contains(&done), "job 0 completes, later jobs may race: {done}");
    assert_eq!(queue.dropped_count() + u64::from(done), 5);
    assert!(!queue.submit(9));
    assert_eq!(queue.dropped_count() + u64::from(done), 6);
}

// ---- Composition ----

#[test]
fn plugins_are_assembled_from_the_configuration() {
    let agent = plugins();
    assert_eq!(agent.session_manager.deps.agent_version, "1.0");
    assert_eq!(agent.target_launcher.deps.marker, "explorer");
    assert_eq!(agent.reporter.verbosity, EventVerbosity::Full);
    let mut config = AgentConfig::default();
    config.target.path = "C:\\Targets\\EVIL.exe".to_owned();
    assert_eq!(target_image_name(&config), "evil.exe");
    config.target.path = "..".to_owned();
    assert_eq!(target_image_name(&config), "..");
}

#[test]
fn the_session_opens_before_the_tracker_seeds_it() {
    let order = lifecycle_order();
    assert_eq!(order.len(), 9);
    assert_eq!(order[0], PluginName::SessionManager);
    assert_eq!(order[1], PluginName::Tracker);
    let pipeline = pipeline_order();
    assert_eq!(pipeline.len(), 7);
    let kept: Vec<PluginName> = order.into_iter().filter(|name| pipeline.contains(name)).collect();
    assert_eq!(kept, pipeline);
}

#[test]
fn studies_get_an_id_once() {
    let first = load_scope_state(ScopeState::default());
    assert!(!first.study_id.is_nil());
    let id = first.study_id;
    assert_eq!(load_scope_state(first).study_id, id);
    let given = with_study_id(ScopeState::default(), StudyId::from_u128(3));
    assert_eq!(given.study_id, StudyId::from_u128(3));
}

#[test]
fn local_runs_leave_the_host_alone() {
    let mut config = AgentConfig::default();
    config.study.processes_to_terminate = texts(&["x"]);
    config.time = TimeConfig { timestamp: 5, offset_secs: 7 };
    config.target.path = "configured.exe".to_owned();
    let local = local_config(config, Some("given.exe".to_owned()));
    assert_eq!(local.target.path, "given.exe");
    let mut agent = assemble(local, "1".to_owned(), SessionStatistics::default());
    let mut state = study();
    agent.session_manager.init(&mut state, 0);
    assert_eq!(start(&agent.session_manager, &state, true).1, None);
    let log = finalize(&mut agent.session_manager, &mut state, 9, true);
    assert!(!log.iter().any(|step| {
        step.starts_with("kill") || step.starts_with("shift") || step.starts_with("control")
    }));
    assert_eq!(local_config(AgentConfig::default(), None).target.path, "");
}

#[test]
fn a_study_of_many_boots_is_numbered_without_gaps() {
    let boots: usize = 24;
    let mut state = study();
    let mut requests = Vec::new();
    for boot in 0..boots {
        let mut settings = deps();
        settings.uptimes = vec![600; boots];
        let mut plugin = SessionManagerPlugin::new(settings);
        let now = 1_000_000 * boot as i64;
        let mut seq: u64 = 0;
        let mut numbers = Vec::new();

        plugin.init(&mut state, now);
        let mut run = plugin.start(&state, now).unwrap();
        loop {
            match plugin.start_step(&mut run, &state, &mut seq, now, true) {
                StartAction::SetClock(_) => {}
                StartAction::Publish(envelope) => {
                    assert_eq!(envelope.session as usize, boot);
                    numbers.push(envelope.seq);
                }
                StartAction::Done => break,
            }
        }
        let mut run = plugin.finalize_session(&mut state, now + 1, FinalizeReason::Deadline).unwrap();
        loop {
            match plugin.finalize_step(&mut run, &state, &mut seq, true) {
                FinalizeAction::Publish(channel, envelope) => {
                    numbers.push(envelope.seq);
                    if channel == Channel::Control {
                        requests.push(envelope.event_type);
                    }
                }
                FinalizeAction::Done => break,
                _ => {}
            }
        }
        let expected: Vec<u64> = (0..numbers.len() as u64).collect();
        assert_eq!(numbers, expected);
        assert_eq!(seq, numbers.len() as u64);
    }
    assert_eq!(state.study_id, StudyId::from_u128(0xBEEF));
    assert_eq!(state.sessions.len(), boots);
    for (at, session) in state.sessions.iter().enumerate() {
        assert_eq!(session.id as usize, at);
        assert_eq!(session.scheduled_duration_secs, Some(600));
        assert!(session.ended_at_ms.is_some() && !session.abandoned);
    }
    assert_eq!(requests.len(), boots);
    assert!(requests[..boots - 1].iter().all(|kind| *kind == EventType::StudyRebootRequested));
    assert_eq!(requests[boots - 1], EventType::StudyShutdownRequested);
}
