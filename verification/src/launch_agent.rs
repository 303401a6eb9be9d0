//! The launchd agent configuration that the `lunchd` crate installs.
use vstd::prelude::*;

use std::path::PathBuf;

use lunchd::{
    AgentError, EnvironmentVariable, KeepAlive, LaunchAgent, LaunchAgentBuilderError, ProcessType,
};

use crate::plist::LABEL;

verus! {

/// Where the agent's standard output goes.
pub const AGENT_STDOUT_PATH: &'static str = "/tmp/nanomiddleclick.stdout.log";

/// Where the agent's standard error goes.
pub const AGENT_STDERR_PATH: &'static str = "/tmp/nanomiddleclick.stderr.log";

#[verifier::external_type_specification]
pub struct ExLaunchAgent(LaunchAgent);

#[verifier::external_type_specification]
pub struct ExEnvironmentVariable(EnvironmentVariable);

#[verifier::external_type_specification]
pub struct ExKeepAlive(KeepAlive);

#[verifier::external_type_specification]
pub struct ExProcessType(ProcessType);

#[verifier::external_type_specification]
#[verifier::external_body]
pub struct ExPathBuf(PathBuf);

#[verifier::external_type_specification]
#[verifier::external_body]
pub struct ExLaunchAgentBuilderError(LaunchAgentBuilderError);

#[verifier::external_type_specification]
#[verifier::external_body]
pub struct ExAgentError(AgentError);

#[verifier::external_type_specification]
#[verifier::external_body]
pub struct ExIoError(std::io::Error);

/// The path that `std::path::PathBuf::from` makes of the text `text`.
pub uninterp spec fn path_from_text(text: Seq<char>) -> PathBuf;

/// Why the launch agent could not be set up.
#[derive(Debug)]
pub enum LaunchAgentError {
    /// The agent configuration was incomplete; `build_agent_config` never
    /// reports it, as it sets every required field.
    BuildFailed(LaunchAgentBuilderError),
    /// `launchctl` or the agent file could not be handled.
    AgentActionFailed(AgentError),
    /// The daemon's own executable path could not be found.
    UnresolvedExecutable(std::io::Error),
}

/// `lunchd::LaunchAgent::builder(label)`, then the builder's `arg`,
/// `run_at_load`, `stdout_path` and `stderr_path` setters and `build`. The
/// builder starts with the label set, `arg` sets the program arguments, and
/// every other field has a default, so `build` finds no required field
/// unset and returns the agent: the label, the one program argument, the
/// run-at-load flag and the two paths (each made by `PathBuf::from`) as
/// given, no environment variables, and no keep-alive policy, process type,
/// start-on-mount flag, working directory or standard-input path.
#[verifier::external_body]
fn launch_agent_built(
    label: &str,
    program: &str,
    run_at_load: bool,
    stdout_path: &str,
    stderr_path: &str,
) -> (r: Result<LaunchAgent, LaunchAgentBuilderError>)
    ensures
        r is Ok,
        r matches Ok(agent) ==> agent.label@ == label@,
        r matches Ok(agent) ==> agent.program_arguments@.len() == 1,
        r matches Ok(agent) ==> agent.program_arguments@[0]@ == program@,
        r matches Ok(agent) ==> agent.environment_variables@.len() == 0,
        r matches Ok(agent) ==> agent.keep_alive is None,
        r matches Ok(agent) ==> agent.process_type is None,
        r matches Ok(agent) ==> agent.run_at_load == run_at_load,
        r matches Ok(agent) ==> agent.start_on_mount is None,
        r matches Ok(agent) ==> agent.working_directory is None,
        r matches Ok(agent) ==> agent.stdin_path is None,
        r matches Ok(agent) ==> agent.stdout_path == Some(path_from_text(stdout_path@)),
        r matches Ok(agent) ==> agent.stderr_path == Some(path_from_text(stderr_path@)),
{
    LaunchAgent::builder(label)
        .arg(program)
        .run_at_load(run_at_load)
        .stdout_path(stdout_path)
        .stderr_path(stderr_path)
        .build()
}

/// The agent has the given label, the one program argument `program`, the
/// given run-at-load flag and output paths, and nothing else set.
pub open spec fn agent_has_fields(
    agent: LaunchAgent,
    label: Seq<char>,
    program: Seq<char>,
    run_at_load: bool,
    stdout_path: Seq<char>,
    stderr_path: Seq<char>,
) -> bool {
    &&& agent.label@ == label
    &&& agent.program_arguments@.len() == 1
    &&& agent.program_arguments@[0]@ == program
    &&& agent.environment_variables@.len() == 0
    &&& agent.keep_alive is None
    &&& agent.process_type is None
    &&& agent.run_at_load == run_at_load
    &&& agent.start_on_mount is None
    &&& agent.working_directory is None
    &&& agent.stdin_path is None
    &&& agent.stdout_path == Some(path_from_text(stdout_path))
    &&& agent.stderr_path == Some(path_from_text(stderr_path))
}

/// The daemon's launch agent: labelled with the preferences domain, running
/// `executable_path` at load, with its output in the two log files under
/// `/tmp`. Building it always succeeds.
pub fn build_agent_config(executable_path: &str) -> (r: Result<LaunchAgent, LaunchAgentError>)
    ensures
        r matches Ok(agent) && agent_has_fields(
            agent,
            LABEL@,
            executable_path@,
            true,
            AGENT_STDOUT_PATH@,
            AGENT_STDERR_PATH@,
        ),
{
    match launch_agent_built(LABEL, executable_path, true, AGENT_STDOUT_PATH, AGENT_STDERR_PATH) {
        Ok(agent) => Ok(agent),
        Err(error) => Err(LaunchAgentError::BuildFailed(error)),
    }
}

} // verus!
