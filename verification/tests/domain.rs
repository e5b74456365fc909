//! The domain: names, filters, command lines, scores and the scope.

use agent::adapters::etw_mapping::{event_type, EtwProvider};
use agent::collections::{tally, TextSet};
use agent::domain::command_line::split_command_line;
use agent::domain::drop_copy::{copy_file_name, hash8, sanitize_extension, MAX_EXTENSION_LEN};
use agent::domain::drop_filter::DropFilter;
use agent::domain::image_name::{extension, file_name_of, image_name, with_extension};
use agent::domain::marker::{is_marker_process, strip_exe};
use agent::domain::scope::{next_session_id, normalize_image_name, ScopeState, ScopeTracker};
use agent::domain::score::{is_cli_interpreter, score_signal, ScoreSignal, ScoreWeights};
use agent::domain::shell_command::{substitute_command, ShellCommandError};
use agent::domain::study_id::{generate_nonce, StudyId};
use agent::protocol::events::EventType;
use agent::protocol::payload::{FileReleasedData, FileWrittenData, ProcessStartedData, ProcessStoppedData};

fn texts(items: &[&str]) -> Vec<String> {
    items.iter().map(|item| item.to_string()).collect()
}

// ---- Command lines ----

#[test]
fn plain_tokens_split_on_whitespace() {
    assert_eq!(split_command_line("app.exe a b"), ["app.exe", "a", "b"]);
    assert_eq!(split_command_line("  app.exe   "), ["app.exe"]);
    assert_eq!(split_command_line(""), Vec::<String>::new());
}

#[test]
fn quoted_paths_stay_one_token() {
    let argv = split_command_line("\"C:\\Program Files\\App\\run.exe\" \"%1\" /flag");
    assert_eq!(argv, ["C:\\Program Files\\App\\run.exe", "%1", "/flag"]);
}

#[test]
fn empty_quotes_yield_empty_token() {
    assert_eq!(split_command_line("app.exe \"\" x"), ["app.exe", "", "x"]);
}

#[test]
fn doubled_quotes_inside_quotes_are_literal() {
    assert_eq!(split_command_line("\"a\"\"b\""), ["a\"b"]);
}

#[test]
fn backslash_runs_follow_argv_rules() {
    assert_eq!(split_command_line("a\\\\\"b"), ["a\\b"]);
    assert_eq!(split_command_line("a\\\\\\\"b"), ["a\\\"b"]);
    assert_eq!(split_command_line("C:\\dir\\"), ["C:\\dir\\"]);
}

#[test]
fn lone_backslash_token_is_not_dropped() {
    assert_eq!(split_command_line("a b \\\\"), ["a", "b", "\\\\"]);
    assert_eq!(split_command_line("x \" \" \\\\"), ["x", " ", "\\\\"]);
}

#[test]
fn backslashes_do_not_carry_over_an_argument() {
    assert_eq!(split_command_line("a\\ \"b c\""), ["a\\", "b c"]);
    assert_eq!(split_command_line("\\\\srv\\share \"x\""), ["\\\\srv\\share", "x"]);
}

// ---- Drop copies ----

#[test]
fn extension_is_whitelisted_and_lowercased() {
    assert_eq!(sanitize_extension("TXT"), "txt");
    assert_eq!(sanitize_extension("tar.gz-1"), "targz-1");
    assert_eq!(sanitize_extension("js:ads"), "jsads");
}

#[test]
fn hostile_extensions_degrade_to_bin() {
    assert_eq!(sanitize_extension(""), "bin");
    assert_eq!(sanitize_extension(":"), "bin");
    assert_eq!(sanitize_extension(":$DATA"), "data");
    assert_eq!(sanitize_extension("кон"), "bin");
}

#[test]
fn extension_is_length_capped() {
    let long = "a".repeat(64);
    assert_eq!(sanitize_extension(&long), "a".repeat(MAX_EXTENSION_LEN));
}

#[test]
fn copy_name_follows_the_naming_scheme() {
    assert_eq!(copy_file_name(3, 42, "ab12cd34", "txt"), "3-42-ab12cd34.txt");
}

#[test]
fn hash8_is_the_digest_prefix() {
    let mut digest = [0_u8; 32];
    digest[0] = 0xAB;
    digest[1] = 0x12;
    assert_eq!(hash8(&digest), "ab120000");
}

#[test]
fn sanitizing_twice_changes_nothing() {
    for raw in ["TXT", "a.b_c-d", ":$DATA", "", "кон", "very-long-extension-indeed-0123456789"] {
        let once = sanitize_extension(raw);
        assert_eq!(sanitize_extension(&once), once);
    }
}

// ---- Drop filters ----

fn filter(tokens: &[&str]) -> DropFilter {
    DropFilter::new(&texts(tokens))
}

#[test]
fn star_matches_everything() {
    let f = filter(&["*"]);
    assert!(f.matches("C:\\x.txt"));
    assert!(f.matches("C:\\x"));
    assert!(f.matches("no-extension"));
}

#[test]
fn none_means_extensionless() {
    let f = filter(&["none", ".txt"]);
    assert!(f.matches("C:\\plain"));
    assert!(f.matches("C:\\trailing."));
    assert!(f.matches("C:\\doc.TXT"));
    assert!(!f.matches("C:\\doc.dll"));
}

#[test]
fn dots_and_case_are_normalized() {
    let f = filter(&["TXT", ".Dll"]);
    assert!(f.matches("C:\\a.txt"));
    assert!(f.matches("C:\\a.DLL"));
    assert!(!f.matches("C:\\a.bat"));
}

#[test]
fn empty_filter_matches_nothing() {
    let f = DropFilter::default();
    assert!(!f.matches("C:\\a.txt"));
    assert!(!f.matches("C:\\a"));
}

#[test]
fn blank_tokens_are_ignored_and_blanks_trimmed() {
    assert!(!filter(&["", "   "]).matches("C:\\a"));
    assert!(filter(&["  .TXT  "]).matches("C:\\a.txt"));
}

#[test]
fn more_tokens_never_match_less() {
    let small = filter(&[".txt"]);
    let large = filter(&[".txt", ".dll"]);
    for path in ["C:\\a.txt", "C:\\a.dll", "C:\\a"] {
        assert!(!small.matches(path) || large.matches(path));
    }
}

#[test]
fn non_ascii_extensions_are_lowercased_too() {
    assert!(filter(&[".ТХТ"]).matches("C:\\a.тхт"));
}

// ---- Names ----

#[test]
fn windows_style_paths_split_on_backslash_on_any_host() {
    assert_eq!(image_name("C:\\Targets\\evil.exe"), "evil.exe");
    assert_eq!(image_name("C:\\Targets\\sub\\dir\\sample.js"), "sample.js");
}

#[test]
fn unix_style_paths_split_on_slash() {
    assert_eq!(image_name("/usr/bin/evil"), "evil");
    assert_eq!(image_name("/tmp/странный/sample.js"), "sample.js");
}

#[test]
fn mixed_separators_split_on_the_last_of_either() {
    assert_eq!(image_name("C:/Targets\\evil.exe"), "evil.exe");
    assert_eq!(image_name("C:\\Targets/evil.exe"), "evil.exe");
}

#[test]
fn bare_names_pass_through() {
    assert_eq!(image_name("evil.exe"), "evil.exe");
    assert_eq!(image_name("wscript.exe"), "wscript.exe");
}

#[test]
fn degenerate_paths_yield_empty_not_garbage() {
    assert_eq!(image_name("C:\\Targets\\"), "");
    assert_eq!(image_name(""), "");
    assert_eq!(image_name("\\"), "");
    assert_eq!(image_name("/"), "");
}

#[test]
fn extensions_are_those_of_the_last_component() {
    assert_eq!(extension("C:\\a.b\\c").as_deref(), None);
    assert_eq!(extension("C:\\a\\b.TXT").as_deref(), Some("TXT"));
    assert_eq!(extension("C:\\a\\b.tar.gz").as_deref(), Some("gz"));
    assert_eq!(extension("trailing.").as_deref(), Some(""));
    assert_eq!(extension(".hidden").as_deref(), None);
    assert_eq!(extension("C:.hidden").as_deref(), None);
    assert_eq!(extension("..").as_deref(), None);
    assert_eq!(extension("dir.d\\").as_deref(), Some("d"));
    assert_eq!(extension("dir.d\\.").as_deref(), Some("d"));
    assert_eq!(extension("").as_deref(), None);
}

#[test]
fn extensions_can_be_replaced() {
    assert_eq!(with_extension("C:\\db\\scope.json", "json.tmp"), "C:\\db\\scope.json.tmp");
    assert_eq!(with_extension("scope", "json.tmp"), "scope.json.tmp");
    assert_eq!(with_extension("C:.hidden", "x"), "C:.hidden.x");
    assert_eq!(with_extension("a.b/", "c"), "a.c");
    assert_eq!(with_extension("", "c"), "");
    assert_eq!(with_extension("..", "c"), "..");
}

#[test]
fn file_names_skip_what_trails() {
    assert_eq!(file_name_of("C:\\Targets\\evil.exe").as_deref(), Some("evil.exe"));
    assert_eq!(file_name_of("C:\\Targets\\").as_deref(), Some("Targets"));
    assert_eq!(file_name_of("a/."), Some("a".to_owned()));
    assert_eq!(file_name_of("C:\\"), None);
    assert_eq!(file_name_of("x\\.."), None);
}

#[test]
fn prefixes_name_no_file() {
    assert_eq!(file_name_of("\\\\server\\share.txt"), None);
    assert_eq!(extension("\\\\server\\share.txt"), None);
    assert_eq!(file_name_of("//server/share.txt"), None);
    assert_eq!(file_name_of("\\\\server\\share\\evil.exe").as_deref(), Some("evil.exe"));
    assert_eq!(file_name_of("\\\\server").as_deref(), Some("server"));
    assert_eq!(file_name_of("\\\\.\\COM1.txt"), None);
    assert_eq!(file_name_of("\\\\.\\pipe\\name.x").as_deref(), Some("name.x"));
    assert_eq!(file_name_of("\\\\?\\C:"), None);
    assert_eq!(file_name_of("\\\\?\\C:\\a.txt").as_deref(), Some("a.txt"));
    assert_eq!(file_name_of("\\\\?\\pictures.d"), None);
    assert_eq!(file_name_of("\\\\?\\UNC\\server\\share.txt"), None);
    assert_eq!(extension("\\\\?\\UNC\\server\\share\\b.exe").as_deref(), Some("exe"));
    assert_eq!(file_name_of("\\\\?\\C:\\a/b.c").as_deref(), Some("a/b.c"));
    assert_eq!(file_name_of("\\\\?\\C:\\a\\."), None);
    assert_eq!(with_extension("\\\\s\\d.e\\f.g", "h"), "\\\\s\\d.e\\f.h");
    assert_eq!(with_extension("\\\\s\\d.e", "h"), "\\\\s\\d.e");
}

// ---- Markers ----

#[test]
fn matches_with_and_without_extension() {
    assert!(is_marker_process("explorer", "explorer.exe"));
    assert!(is_marker_process("explorer.exe", "explorer"));
    assert!(is_marker_process("explorer", "explorer"));
}

#[test]
fn comparison_is_case_insensitive() {
    assert!(is_marker_process("Explorer", "EXPLORER.EXE"));
}

#[test]
fn non_markers_are_rejected() {
    assert!(!is_marker_process("explorer", "evil.exe"));
    assert!(!is_marker_process("explorer", "explorer_helper.exe"));
}

#[test]
fn hostile_and_degenerate_names_never_match() {
    assert!(!is_marker_process("explorer", ""));
    assert!(!is_marker_process("", "explorer.exe"));
    assert!(!is_marker_process("", ""));
    assert!(!is_marker_process("explorer", "explorer.exe.exe"));
    assert!(!is_marker_process("explorer", "expl0rer.exe"));
    assert!(!is_marker_process("explorer", "explorer2.exe"));
}

#[test]
fn marker_match_is_symmetric() {
    for (left, right) in [("explorer", "EXPLORER.exe"), ("a", "b"), ("", "a")] {
        assert_eq!(is_marker_process(left, right), is_marker_process(right, left));
    }
    assert_eq!(strip_exe("a.exe.exe"), "a.exe");
    assert_eq!(strip_exe("exe"), "exe");
}

// ---- Scores ----

fn weights() -> ScoreWeights {
    ScoreWeights { cli_started: 4, drop_observed: 5 }
}

#[test]
fn cli_interpreters_are_recognized_case_insensitively() {
    for name in ["cmd", "CMD.exe", "PowerShell", "powershell.exe", "mshta.EXE", "wscript"] {
        assert!(is_cli_interpreter(name), "{name} should be a CLI interpreter");
    }
    for name in ["evil.exe", "notepad", "explorer.exe", "cmDEXplorer"] {
        assert!(!is_cli_interpreter(name), "{name} should not be a CLI interpreter");
    }
}

#[test]
fn scores_follow_weights_and_max_semantics() {
    let w = weights();
    assert_eq!(score_signal(&w, &ScoreSignal::CliInterpreter("cmd.exe")), Some(4));
    assert_eq!(score_signal(&w, &ScoreSignal::CliInterpreter("evil.exe")), None);
    assert_eq!(score_signal(&w, &ScoreSignal::DropObserved), Some(5));
}

// ---- Shell commands ----

const DOC: &str = "C:\\Samples\\evil script.js";

#[test]
fn placeholder_is_replaced_with_document_path() {
    let out = substitute_command("\"C:\\Program Files\\App\\run.exe\" \"%1\"", DOC).unwrap();
    assert_eq!(out, format!("\"C:\\Program Files\\App\\run.exe\" \"{DOC}\""));
}

#[test]
fn unquoted_placeholder_is_substituted_verbatim() {
    let out = substitute_command("C:\\Tools\\view.exe %1", DOC).unwrap();
    assert_eq!(out, format!("C:\\Tools\\view.exe {DOC}"));
}

#[test]
fn single_token_command_gets_document_appended() {
    let out = substitute_command("notepad.exe", DOC).unwrap();
    assert_eq!(out, format!("notepad.exe \"{DOC}\""));
}

#[test]
fn long_path_alias_is_also_substituted() {
    let out = substitute_command("C:\\Tools\\view.exe %L", DOC).unwrap();
    assert_eq!(out, format!("C:\\Tools\\view.exe {DOC}"));
}

#[test]
fn lowercase_long_path_alias_is_also_substituted() {
    let out = substitute_command("C:\\Tools\\view.exe %l", DOC).unwrap();
    assert_eq!(out, format!("C:\\Tools\\view.exe {DOC}"));
}

#[test]
fn document_quoted_inside_larger_arg_is_substituted_once() {
    let out = substitute_command("app.exe /doc:\"%1\" /flag", DOC).unwrap();
    assert_eq!(out, format!("app.exe /doc:\"{DOC}\" /flag"));
}

#[test]
fn unicode_document_survives_substitution() {
    let doc = "C:\\Выбор\\малица.js";
    let out = substitute_command("app.exe \"%1\"", doc).unwrap();
    assert_eq!(out, format!("app.exe \"{doc}\""));
    let out = substitute_command("app.exe", doc).unwrap();
    assert_eq!(out, format!("app.exe \"{doc}\""));
}

#[test]
fn empty_command_is_rejected() {
    assert_eq!(substitute_command("   ", DOC), Err(ShellCommandError::Empty));
    assert_eq!(substitute_command("", DOC), Err(ShellCommandError::Empty));
    assert_eq!(ShellCommandError::Empty.message(), "shell command is empty");
}

#[test]
fn dde_placeholders_pass_through() {
    let out = substitute_command("app.exe %2 %*", DOC).unwrap();
    assert_eq!(out, format!("app.exe %2 %* \"{DOC}\""));
}

#[test]
fn documents_that_hold_a_placeholder_are_not_substituted_again() {
    let out = substitute_command("view.exe %1", "C:\\%1\\x").unwrap();
    assert_eq!(out, "view.exe C:\\%1\\x");
}

// ---- Trace mapping ----

#[test]
fn guid_roundtrip_is_case_and_brace_tolerant() {
    for provider in EtwProvider::all() {
        assert_eq!(EtwProvider::from_guid(provider.guid()), Some(provider));
        let braced_upper = format!("{{{}}}", provider.guid().to_uppercase());
        assert_eq!(EtwProvider::from_guid(&braced_upper), Some(provider));
    }
    assert_eq!(EtwProvider::from_guid("not-a-guid"), None);
}

#[test]
fn legacy_subscribed_events_all_map() {
    let expected: &[(EtwProvider, u8, EventType)] = &[
        (EtwProvider::Process, 1, EventType::ProcessStarted),
        (EtwProvider::Process, 2, EventType::ProcessStopped),
        (EtwProvider::Process, 3, EventType::ProcessStarted),
        (EtwProvider::Process, 4, EventType::ProcessStopped),
        (EtwProvider::Thread, 1, EventType::ThreadStarted),
        (EtwProvider::Thread, 2, EventType::ThreadStopped),
        (EtwProvider::Thread, 3, EventType::ThreadStarted),
        (EtwProvider::Thread, 4, EventType::ThreadStopped),
        (EtwProvider::Image, 10, EventType::ImageLoaded),
        (EtwProvider::Image, 11, EventType::ImageUnloaded),
        (EtwProvider::Registry, 10, EventType::RegistryKeyCreated),
        (EtwProvider::Registry, 12, EventType::RegistryKeyDeleted),
        (EtwProvider::Registry, 11, EventType::RegistryKeyOpened),
        (EtwProvider::Registry, 27, EventType::RegistryKeyClosed),
        (EtwProvider::Registry, 13, EventType::RegistryKeyQueried),
        (EtwProvider::Registry, 16, EventType::RegistryValueQueried),
        (EtwProvider::Registry, 22, EventType::RegistryValueQueried),
        (EtwProvider::Registry, 14, EventType::RegistryValueSet),
        (EtwProvider::FileIo, 32, EventType::FileCreated),
        (EtwProvider::FileIo, 20, EventType::FileWritten),
        (EtwProvider::FileIo, 35, EventType::FileClosed),
        (EtwProvider::FileIo, 36, EventType::FileCleanedUp),
        (EtwProvider::FileIo, 33, EventType::FileDeleted),
        (EtwProvider::FileIo, 34, EventType::FileRenamed),
        (EtwProvider::FileIo, 42, EventType::FileFsctl),
        (EtwProvider::TcpIp, 12, EventType::NetTcpConnected),
        (EtwProvider::TcpIp, 28, EventType::NetTcpConnected),
        (EtwProvider::TcpIp, 15, EventType::NetTcpAccepted),
        (EtwProvider::TcpIp, 31, EventType::NetTcpAccepted),
        (EtwProvider::TcpIp, 13, EventType::NetTcpDisconnected),
        (EtwProvider::TcpIp, 29, EventType::NetTcpDisconnected),
    ];
    for (provider, opcode, event) in expected {
        assert_eq!(event_type(*provider, *opcode), Some(*event));
    }
}

#[test]
fn deliberately_excluded_events_are_unmapped() {
    assert_eq!(event_type(EtwProvider::FileIo, 15), None);
    assert_eq!(event_type(EtwProvider::FileIo, 0), None);
    assert_eq!(event_type(EtwProvider::TcpIp, 10), None);
    assert_eq!(event_type(EtwProvider::TcpIp, 11), None);
    assert_eq!(event_type(EtwProvider::Process, 99), None);
}

// ---- The scope ----

fn state() -> ScopeState {
    ScopeState { study_id: StudyId::from_u128(1), sessions: Vec::new() }
}

fn entered(tracker: &ScopeTracker, state: &mut ScopeState, pid: u32, name: &str, now_ms: i64) -> bool {
    tracker.process_entered(
        state,
        &ProcessStartedData {
            pid,
            parent_pid: None,
            name: name.to_owned(),
            image_path: None,
            command_line: None,
            os_session_id: Some(1),
        },
        now_ms,
    )
}

fn exited(tracker: &ScopeTracker, state: &mut ScopeState, pid: u32, name: &str, now_ms: i64) -> bool {
    tracker.process_exited(state, &ProcessStoppedData { pid, name: name.to_owned() }, now_ms)
}

fn written(pid: u32, path: &str) -> FileWrittenData {
    FileWrittenData {
        pid,
        file_object: Some(1),
        file_key: Some(2),
        file_name: Some(path.to_owned()),
        io_size: Some(10),
        offset: Some(0),
    }
}

#[test]
fn target_seed_joins_scope() {
    let mut state = state();
    let mut tracker = ScopeTracker::default();
    tracker.open_session(&mut state, 0, Some(60));
    tracker.expect("evil.exe");
    assert!(entered(&tracker, &mut state, 100, "evil.EXE", 1));
    assert!(!entered(&tracker, &mut state, 200, "notepad.exe", 2));
}

#[test]
fn child_joins_scope_via_parent_pid() {
    let mut state = state();
    let mut tracker = ScopeTracker::default();
    tracker.open_session(&mut state, 0, None);
    tracker.expect("evil.exe");
    assert!(entered(&tracker, &mut state, 100, "evil.exe", 1));
    let child = ProcessStartedData {
        pid: 101,
        parent_pid: Some(100),
        name: "cmd.exe".to_owned(),
        image_path: None,
        command_line: None,
        os_session_id: Some(1),
    };
    assert!(tracker.process_entered(&mut state, &child, 2));
}

#[test]
fn scope_death_requires_at_least_one_scoped_process() {
    let mut state = state();
    let mut tracker = ScopeTracker::default();
    tracker.open_session(&mut state, 0, None);
    assert!(!ScopeTracker::scope_dead(&state));
    tracker.expect("evil.exe");
    assert!(entered(&tracker, &mut state, 100, "evil.exe", 1));
    assert!(!ScopeTracker::scope_dead(&state));
    assert!(exited(&tracker, &mut state, 100, "evil.exe", 2));
    assert!(ScopeTracker::scope_dead(&state));
}

#[test]
fn pid_reuse_replaces_the_stale_record() {
    let mut state = state();
    let mut tracker = ScopeTracker::default();
    tracker.open_session(&mut state, 0, None);
    tracker.expect("evil.exe");
    assert!(entered(&tracker, &mut state, 100, "evil.exe", 1));
    assert!(entered(&tracker, &mut state, 100, "evil.exe", 2));
    let records = &state.current_session().unwrap().scoped_processes;
    assert_eq!(records.len(), 1);
    assert_eq!(records.first().unwrap().started_at_ms, 2);
    assert!(records.first().unwrap().ended_at_ms.is_none());
}

#[test]
fn dead_scope_members_neither_inherit_nor_attribute() {
    let mut state = state();
    let mut tracker = ScopeTracker::default();
    tracker.open_session(&mut state, 0, None);
    tracker.expect("evil.exe");
    assert!(entered(&tracker, &mut state, 100, "evil.exe", 1));
    assert!(exited(&tracker, &mut state, 100, "evil.exe", 2));

    let child = ProcessStartedData {
        pid: 300,
        parent_pid: Some(100),
        name: "cmd.exe".to_owned(),
        image_path: None,
        command_line: None,
        os_session_id: Some(1),
    };
    assert!(!tracker.process_entered(&mut state, &child, 3));
    let filter = DropFilter::new(&["*".to_owned()]);
    assert_eq!(tracker.drop_observed(&mut state, &written(100, "C:\\x.txt"), &filter), None);
}

#[test]
fn drops_only_from_scoped_processes_and_matching_extensions() {
    let mut state = state();
    let mut tracker = ScopeTracker::default();
    tracker.open_session(&mut state, 0, None);
    tracker.expect("evil.exe");
    assert!(entered(&tracker, &mut state, 100, "evil.exe", 1));
    let filter = DropFilter::new(&[".txt".to_owned(), "none".to_owned()]);

    assert!(!entered(&tracker, &mut state, 900, "browser.exe", 2));
    assert_eq!(tracker.drop_observed(&mut state, &written(900, "C:\\x.txt"), &filter), None);
    assert_eq!(tracker.drop_observed(&mut state, &written(100, "C:\\y.dll"), &filter), None);
    assert_eq!(
        tracker.drop_observed(&mut state, &written(100, "C:\\z.TXT"), &filter),
        Some("C:\\z.TXT".to_owned())
    );
    assert_eq!(tracker.drop_observed(&mut state, &written(100, "C:\\z.TXT"), &filter), None);
    assert_eq!(
        state.current_session().unwrap().observed_drops.to_vec(),
        vec!["C:\\z.TXT".to_owned()]
    );
}

#[test]
fn drop_close_reported_once_for_observed_paths() {
    let mut state = state();
    let mut tracker = ScopeTracker::default();
    tracker.open_session(&mut state, 0, None);
    tracker.expect("evil.exe");
    assert!(entered(&tracker, &mut state, 100, "evil.exe", 1));
    let filter = DropFilter::new(&["*".to_owned()]);
    assert!(tracker.drop_observed(&mut state, &written(100, "C:\\a.exe"), &filter).is_some());

    let release = |name: &str| FileReleasedData {
        pid: 100,
        file_object: Some(1),
        file_key: Some(2),
        file_name: Some(name.to_owned()),
    };
    assert_eq!(
        tracker.drop_closed(&state, &release("C:\\a.exe")),
        Some("C:\\a.exe".to_owned())
    );
    assert_eq!(tracker.drop_closed(&state, &release("C:\\a.exe")), None);
    assert_eq!(tracker.drop_closed(&state, &release("C:\\never-seen.txt")), None);
}

#[test]
fn image_names_are_lowercased_beyond_ascii() {
    assert_eq!(normalize_image_name("EVIL.EXE"), "evil.exe");
    assert_eq!(normalize_image_name("ЗЛО.EXE"), "зло.exe");
}

#[test]
fn session_ids_count_boots_and_saturate() {
    assert_eq!(next_session_id(0), 0);
    assert_eq!(next_session_id(23), 23);
    assert_eq!(next_session_id(usize::MAX), u32::MAX);
}

// ---- Study ids ----

#[test]
fn random_ids_carry_version_and_variant_and_differ() {
    let left = StudyId::random();
    let right = StudyId::random();
    assert_ne!(left, right);
    assert!(!left.is_nil());
    assert_eq!((left.bits >> 76) & 0xF, 4);
    assert_eq!((left.bits >> 62) & 3, 2);
    assert!(StudyId::nil().is_nil());
    assert_eq!(StudyId::default(), StudyId::nil());
}

#[test]
fn ids_print_as_hexadecimal_digits() {
    let id = StudyId::from_u128(0x0123_4567_89ab_cdef_0000_0000_0000_00ff);
    assert_eq!(id.simple(), "0123456789abcdef00000000000000ff");
    let nonce = generate_nonce();
    assert_eq!(nonce.len(), 32);
    assert!(nonce.chars().all(|c| c.is_ascii_digit() || ('a'..='f').contains(&c)));
    assert_eq!(nonce.chars().nth(12), Some('4'));
}

// ---- Collections ----

#[test]
fn text_sets_are_ordered_and_hold_each_text_once() {
    let mut set = TextSet::new();
    assert!(set.insert("b".to_owned()));
    assert!(set.insert("a".to_owned()));
    assert!(!set.insert("b".to_owned()));
    assert!(set.insert("B".to_owned()));
    assert_eq!(set.to_vec(), ["B", "a", "b"]);
    assert!(set.contains("a") && !set.contains("c"));
    assert_eq!(set.len(), 3);
}

#[test]
fn tallies_count_each_text_in_order() {
    let counted = tally(&texts(&["txt", "exe", "txt", ""]));
    assert_eq!(
        counted,
        vec![("".to_owned(), 1), ("exe".to_owned(), 1), ("txt".to_owned(), 2)]
    );
}
