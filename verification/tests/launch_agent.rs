use nanomiddleclick::{build_agent_config, AGENT_STDERR_PATH, AGENT_STDOUT_PATH, LABEL};
use std::path::PathBuf;

#[test]
fn agent_config_runs_the_executable_at_load() {
    let agent = build_agent_config("/usr/local/bin/nanomiddleclick").expect("agent builds");
    assert_eq!(agent.label, LABEL);
    assert_eq!(agent.program_arguments, vec!["/usr/local/bin/nanomiddleclick".to_owned()]);
    assert!(agent.run_at_load);
    assert_eq!(agent.stdout_path, Some(PathBuf::from(AGENT_STDOUT_PATH)));
    assert_eq!(agent.stderr_path, Some(PathBuf::from(AGENT_STDERR_PATH)));
    assert_eq!(agent.stdout_path, Some(PathBuf::from("/tmp/nanomiddleclick.stdout.log")));
}

#[test]
fn agent_config_sets_nothing_else() {
    let agent = build_agent_config("/opt/bin/nmc").expect("agent builds");
    assert_eq!(agent.program_arguments, vec!["/opt/bin/nmc".to_owned()]);
    assert!(agent.environment_variables.is_empty());
    assert!(agent.keep_alive.is_none());
    assert!(agent.process_type.is_none());
    assert!(agent.start_on_mount.is_none());
    assert!(agent.working_directory.is_none());
    assert!(agent.stdin_path.is_none());
    assert_ne!(agent.stdout_path, agent.stderr_path);
}
