use unitytelebuild::log_router::route_lines;
use unitytelebuild::paths::join;
use unitytelebuild::process::{
    BuildDestinations, BuildPlatform, BuildRequest, LogBehaviour, MissingField, SessionError,
    UnityProcess, SESSION_NODE,
};
use unitytelebuild::session::{BuildSession, SessionLedger, UnityOutput};
use unitytelebuild::session_id::session_id_text;
use unitytelebuild::supervisor::{SessionAction, SessionEvent, SessionState};

fn destinations() -> BuildDestinations {
    BuildDestinations {
        development: "Builds/dev".to_string(),
        release: "Builds/rel".to_string(),
    }
}

fn complete_process(behaviour: LogBehaviour) -> UnityProcess {
    let mut p = UnityProcess::new();
    p.set_bin("/opt/unity/Editor/Unity".to_string())
        .set_platform(BuildPlatform::AndroidDevelopment)
        .set_log_behavior(behaviour)
        .set_project_path("/proj".to_string())
        .set_build_entry("Builder.Build".to_string())
        .set_keystore_password("SECRET-REDACTED".to_string())
        .set_telebuild_root(".sess".to_string())
        .set_log_directory("logs".to_string());
    p
}

fn request(behaviour: LogBehaviour) -> BuildRequest {
    complete_process(behaviour).build_request(&destinations()).ok().unwrap()
}

fn open_session(behaviour: LogBehaviour) -> BuildSession {
    let mut ledger = SessionLedger::new();
    ledger.open(request(behaviour)).ok().unwrap()
}

fn report(path: &str) -> UnityOutput {
    UnityOutput {
        build_path: path.to_string(),
        platform: BuildPlatform::AndroidDevelopment,
        log_path: None,
        exit_code: None,
    }
}

fn running(behaviour: LogBehaviour) -> BuildSession {
    let mut s = open_session(behaviour);
    assert_eq!(s.advance(SessionEvent::SettingsStored), SessionAction::Spawn);
    assert_eq!(s.advance(SessionEvent::ChildSpawned), SessionAction::Supervise);
    assert_eq!(s.advance(SessionEvent::OutputAttached), SessionAction::Nothing);
    assert_eq!(s.state, SessionState::Running);
    s
}

fn lines() -> Vec<String> {
    vec!["A".to_string(), "B".to_string(), "C".to_string()]
}

#[test]
fn session_roots_are_pairwise_distinct() {
    let mut ledger = SessionLedger::new();
    let mut roots: Vec<String> = Vec::new();
    for _ in 0..20 {
        let session = ledger.open(request(LogBehaviour::File)).ok().unwrap();
        roots.push(session.root.clone());
    }
    for i in 0..roots.len() {
        for j in 0..roots.len() {
            if i != j {
                assert_ne!(roots[i], roots[j]);
            }
        }
    }
}

#[test]
fn reused_identifier_is_refused() {
    let mut ledger = SessionLedger::new();
    let process = complete_process(LogBehaviour::File);
    let first = process.build_request(&destinations()).ok().unwrap();
    let again = process.build_request(&destinations()).ok().unwrap();
    assert!(!ledger.is_issued(first.uuid));
    assert!(ledger.open(first).is_ok());
    assert!(ledger.is_issued(again.uuid));
    assert_eq!(ledger.open(again).err(), Some(SessionError::RootReused));
}

#[test]
fn session_paths_follow_the_identifier() {
    let s = open_session(LogBehaviour::StdoutFile);
    let id = session_id_text(s.request.uuid);
    assert_eq!(s.root, format!("/proj/.sess/{}", id));
    assert_eq!(s.settings_file, format!("/proj/.sess/{}/settings.json", id));
    assert_eq!(s.report_file, format!("/proj/.sess/{}/output.json", id));
    assert_eq!(s.log_directory, format!("/proj/.sess/{}/logs", id));
    assert_eq!(s.log_file, format!("/proj/.sess/{}/logs/android_build.log", id));
    assert_eq!(s.state, SessionState::Created);
}

#[test]
fn concurrent_sessions_use_different_handshake_files() {
    let a = open_session(LogBehaviour::File);
    let b = open_session(LogBehaviour::File);
    assert_eq!(a.request.project_path, b.request.project_path);
    assert_ne!(a.settings_file, b.settings_file);
    assert_ne!(a.report_file, b.report_file);
    assert_ne!(a.settings_file, b.report_file);
}

#[test]
fn identifier_text_is_hyphenated_lowercase_hex() {
    let text = session_id_text(0x0123_4567_89ab_cdef_0123_4567_89ab_cdef);
    assert_eq!(text, "01234567-89ab-cdef-0123-456789abcdef");
    assert_eq!(session_id_text(0), "00000000-0000-0000-0000-000000000000");
}

#[test]
fn settings_round_trip_values() {
    let s = open_session(LogBehaviour::File);
    let settings = s.create_build_settings();
    assert_eq!(settings.platform, BuildPlatform::AndroidDevelopment);
    assert_eq!(settings.secret, "SECRET-REDACTED");
    assert_eq!(settings.destination, "Builds/dev");
}

#[test]
fn release_destination_is_chosen_by_platform() {
    let mut p = complete_process(LogBehaviour::File);
    p.set_platform(BuildPlatform::AndroidRelease);
    assert_eq!(p.build_path(&destinations()).ok(), Some("Builds/rel".to_string()));
    let empty = UnityProcess::new();
    assert_eq!(
        empty.build_path(&destinations()).err(),
        Some(SessionError::Configuration(MissingField::Platform))
    );
}

#[test]
fn output_path_is_resolved_against_the_session_root() {
    let mut s = running(LogBehaviour::File);
    assert_eq!(s.advance(SessionEvent::Exited(Some(0))), SessionAction::LoadReport);
    let out = s.conclude(Some(report("Android/app.apk"))).ok().unwrap();
    let id = session_id_text(s.request.uuid);
    assert_eq!(out.build_path, format!("/proj/.sess/{}/Android/app.apk", id));
    assert_eq!(out.platform, BuildPlatform::AndroidDevelopment);
    assert_eq!(out.exit_code, Some(0));
    assert_eq!(out.log_path, Some(s.log_file.clone()));
    assert_eq!(s.state, SessionState::OutputLoaded);
}

#[test]
fn stdout_session_attaches_no_log_file() {
    let s = open_session(LogBehaviour::Stdout);
    let out = s.load_output(Some(report("Android/app.apk")), Some(0)).ok().unwrap();
    assert_eq!(out.log_path, None);
}

#[test]
fn missing_report_after_clean_exit_fails() {
    let mut s = running(LogBehaviour::File);
    s.advance(SessionEvent::Exited(Some(0)));
    assert_eq!(s.conclude(None).err(), Some(SessionError::OutputLoad));
    assert_eq!(s.state, SessionState::Failed(SessionError::OutputLoad));
}

#[test]
fn report_with_failed_exit_is_a_failure() {
    let mut s = running(LogBehaviour::File);
    s.advance(SessionEvent::Exited(Some(3)));
    assert_eq!(
        s.conclude(Some(report("Android/app.apk"))).err(),
        Some(SessionError::ExitFailure(Some(3)))
    );
    assert_eq!(s.state, SessionState::Failed(SessionError::ExitFailure(Some(3))));
}

#[test]
fn cancellation_before_output_ends_cancelled() {
    let mut s = running(LogBehaviour::File);
    assert_eq!(s.advance(SessionEvent::Interrupted), SessionAction::KillChild);
    assert_eq!(s.state, SessionState::Terminating);
    assert_eq!(s.advance(SessionEvent::Exited(Some(0))), SessionAction::Nothing);
    assert_eq!(s.advance(SessionEvent::KillConfirmed), SessionAction::Report);
    assert_eq!(s.state, SessionState::Cancelled);
    assert_eq!(s.advance(SessionEvent::Exited(Some(0))), SessionAction::Nothing);
    assert_eq!(s.state, SessionState::Cancelled);
}

#[test]
fn failures_before_spawn_are_terminal() {
    let mut s = open_session(LogBehaviour::File);
    assert_eq!(s.advance(SessionEvent::StorageFailed), SessionAction::Report);
    assert_eq!(s.state, SessionState::Failed(SessionError::Io));
    assert_eq!(s.advance(SessionEvent::ChildSpawned), SessionAction::Nothing);
    assert_eq!(s.state, SessionState::Failed(SessionError::Io));

    let mut t = open_session(LogBehaviour::File);
    t.advance(SessionEvent::SettingsStored);
    assert_eq!(t.advance(SessionEvent::SpawnFailed), SessionAction::Report);
    assert_eq!(t.state, SessionState::Failed(SessionError::Spawn));
}

#[test]
fn invocation_names_workspace_entry_and_root() {
    let mut p = complete_process(LogBehaviour::File);
    p.set_project_path_unity("/ws/proj".to_string())
        .set_env("A".to_string(), "1".to_string())
        .set_env("B".to_string(), "2".to_string())
        .set_env("A".to_string(), "3".to_string());
    let mut ledger = SessionLedger::new();
    let s = ledger.open(p.build_request(&destinations()).ok().unwrap()).ok().unwrap();
    let inv = s.build();
    assert_eq!(inv.program, "/opt/unity/Editor/Unity");
    let expected: Vec<String> = vec![
        "-batchmode", "-quit", "-projectPath", "/ws/proj", "-executeMethod", "Builder.Build",
        "-buildTarget", "android", "-logFile", "-", "-sessionroot",
    ]
    .into_iter()
    .map(|a| a.to_string())
    .chain(std::iter::once(s.root.clone()))
    .collect();
    assert_eq!(inv.args, expected);
    assert_eq!(
        inv.envs,
        vec![("B".to_string(), "2".to_string()), ("A".to_string(), "3".to_string())]
    );
}

#[test]
fn workspace_defaults_to_the_project() {
    let r = request(LogBehaviour::File);
    assert_eq!(r.workspace_path, "/proj");
    assert_eq!(r.project_path, "/proj");
    assert_eq!(r.destination, "Builds/dev");
}

#[test]
fn first_missing_field_is_reported() {
    let d = destinations();
    let mut p = UnityProcess::new();
    assert_eq!(p.build_request(&d).err(), Some(SessionError::Configuration(MissingField::Bin)));
    p.set_bin("unity".to_string());
    assert_eq!(p.build_request(&d).err(), Some(SessionError::Configuration(MissingField::Platform)));
    p.set_platform(BuildPlatform::AndroidRelease);
    assert_eq!(
        p.build_request(&d).err(),
        Some(SessionError::Configuration(MissingField::LogBehavior))
    );
    p.set_log_behavior(LogBehaviour::Stdout);
    assert_eq!(
        p.build_request(&d).err(),
        Some(SessionError::Configuration(MissingField::ProjectPath))
    );
    p.set_project_path("/p".to_string());
    assert_eq!(
        p.build_request(&d).err(),
        Some(SessionError::Configuration(MissingField::BuildEntry))
    );
    p.set_build_entry("E.B".to_string());
    assert_eq!(
        p.build_request(&d).err(),
        Some(SessionError::Configuration(MissingField::KeystorePassword))
    );
    p.set_keystore_password("pw".to_string());
    assert_eq!(
        p.build_request(&d).err(),
        Some(SessionError::Configuration(MissingField::TelebuildRoot))
    );
    p.set_telebuild_root(".tb".to_string());
    assert_eq!(
        p.build_request(&d).err(),
        Some(SessionError::Configuration(MissingField::LogDirectory))
    );
    p.set_log_directory("logs".to_string());
    let r = p.build_request(&d).ok().unwrap();
    assert_eq!(r.destination, "Builds/rel");
    assert_eq!(r.platform, BuildPlatform::AndroidRelease);
}

#[test]
fn stdout_lines_are_echoed_and_no_file_is_made() {
    let routed = route_lines(LogBehaviour::Stdout, &lines());
    assert_eq!(routed.console, lines());
    assert!(routed.file.is_none());
    assert!(LogBehaviour::Stdout.echoes());
    assert!(!LogBehaviour::Stdout.writes_file());
}

#[test]
fn file_lines_are_written_in_order_and_not_echoed() {
    let routed = route_lines(LogBehaviour::File, &lines());
    assert!(routed.console.is_empty());
    assert_eq!(routed.file, Some(lines()));
}

#[test]
fn stdout_file_lines_go_to_both_in_the_same_order() {
    let routed = route_lines(LogBehaviour::StdoutFile, &lines());
    assert_eq!(routed.console, lines());
    assert_eq!(routed.file, Some(lines()));
}

#[test]
fn no_lines_route_nowhere() {
    let routed = route_lines(LogBehaviour::StdoutFile, &Vec::new());
    assert!(routed.console.is_empty());
    assert_eq!(routed.file, Some(Vec::new()));
}

#[test]
fn join_follows_unix_paths() {
    assert_eq!(join("/proj", "Android/app.apk"), "/proj/Android/app.apk");
    assert_eq!(join("/proj/", "x"), "/proj/x");
    assert_eq!(join("", "x"), "x");
    assert_eq!(join("/proj", "/abs"), "/abs");
    assert_eq!(join("/proj", ""), "/proj/");
}

#[test]
fn terminal_states_carry_their_error() {
    assert_eq!(SessionState::Cancelled.error(), Some(SessionError::Cancelled));
    assert_eq!(SessionState::Failed(SessionError::Io).error(), Some(SessionError::Io));
    assert_eq!(SessionState::OutputLoaded.error(), None);
    assert_eq!(SessionState::Running.error(), None);
}

#[test]
fn default_builder_is_empty() {
    let p = UnityProcess::default();
    assert_eq!(p.platform, None);
    assert_eq!(p.bin_path, None);
    assert_eq!(
        p.build_request(&destinations()).err(),
        Some(SessionError::Configuration(MissingField::Bin))
    );
}

#[test]
fn session_identifiers_are_version_one_for_the_node() {
    for _ in 0..5 {
        let id = UnityProcess::new().uuid;
        assert_eq!((id >> 76) & 0xf, 1);
        assert_eq!((id >> 62) & 0x3, 2);
        assert_eq!(id & 0xffff_ffff_ffff, SESSION_NODE);
        assert_eq!(SESSION_NODE, 0x0102_0304_0506);
    }
}
