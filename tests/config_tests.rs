use unitytelebuild::access::{contains_id, keyboard_rows, ApplicationConfig};
use unitytelebuild::environment::{log_behaviour_for, BuildEnvironment};
use unitytelebuild::process::{BuildDestinations, BuildPlatform, LogBehaviour};

fn environment(unity_root: Option<&str>, log_to_stdout: bool) -> BuildEnvironment {
    BuildEnvironment {
        projects_root: "/srv/projects".to_string(),
        projects_root_unity: unity_root.map(|s| s.to_string()),
        telebuild_root: ".telebuild".to_string(),
        log_directory: "Logs".to_string(),
        unity_bin: "/opt/unity".to_string(),
        build_entry: "Build.Android".to_string(),
        keystore_password: "SECRET-REDACTED".to_string(),
        log_to_stdout,
        destinations: BuildDestinations {
            development: "out/dev".to_string(),
            release: "out/rel".to_string(),
        },
    }
}

#[test]
fn process_for_builds_a_development_request() {
    let env = environment(None, false);
    let p = env.process_for("game");
    assert_eq!(p.platform, Some(BuildPlatform::AndroidDevelopment));
    assert_eq!(p.log_behavior, Some(LogBehaviour::File));
    assert_eq!(p.project_path, Some("/srv/projects/game".to_string()));
    let r = p.build_request(&env.destinations).ok().unwrap();
    assert_eq!(r.workspace_path, "/srv/projects/game");
    assert_eq!(r.bin_path, "/opt/unity");
    assert_eq!(r.build_entry, "Build.Android");
    assert_eq!(r.telebuild_root, ".telebuild");
    assert_eq!(r.log_directory, "Logs");
    assert_eq!(r.destination, "out/dev");
    assert!(r.envs.is_empty());
}

#[test]
fn process_for_uses_the_engine_root_when_given() {
    let env = environment(Some("/mnt/unity"), true);
    let p = env.process_for("game");
    assert_eq!(p.log_behavior, Some(LogBehaviour::StdoutFile));
    let r = p.build_request(&env.destinations).ok().unwrap();
    assert_eq!(r.workspace_path, "/mnt/unity/game");
    assert_eq!(r.project_path, "/srv/projects/game");
}

#[test]
fn builders_get_distinct_identifiers() {
    let env = environment(None, false);
    assert_ne!(env.process_for("a").uuid, env.process_for("a").uuid);
}

#[test]
fn log_flag_selects_behaviour() {
    assert_eq!(log_behaviour_for(true), LogBehaviour::StdoutFile);
    assert_eq!(log_behaviour_for(false), LogBehaviour::File);
}

#[test]
fn private_mode_admits_listed_ids_only() {
    let mut config = ApplicationConfig {
        allowed_users_id: vec![10, 20],
        allowed_chats_id: vec![-5],
        private_mode: false,
    };
    assert!(config.accepts(99));
    config.set_access_mode(true);
    assert!(config.private_mode);
    assert!(config.accepts(20));
    assert!(config.accepts(-5));
    assert!(!config.accepts(99));
    assert!(config.is_id_allowed(10));
    assert!(!config.is_id_allowed(11));
    assert!(contains_id(&vec![1, 2, 3], 3));
    assert!(!contains_id(&Vec::new(), 3));
}

#[test]
fn keyboard_rows_hold_three_names_each() {
    let names: Vec<String> = (1..=7).map(|i| format!("p{}", i)).collect();
    let rows = keyboard_rows(&names);
    assert_eq!(rows.len(), 3);
    assert_eq!(rows[0], vec!["p1", "p2", "p3"]);
    assert_eq!(rows[1], vec!["p4", "p5", "p6"]);
    assert_eq!(rows[2], vec!["p7"]);
    assert!(keyboard_rows(&Vec::new()).is_empty());
    assert_eq!(keyboard_rows(&names[..3].to_vec()).len(), 1);
}
