//! The command lines the supervisor has run: the backend itself, and the
//! auxiliary command that provisions the browser runtime it automates.

use crate::forwarder::{BackendEndpoint, BACKEND_PORT};
use crate::platform::PathStyle;
use crate::resolver::{BackendLocation, BackendLocationView};
use crate::text::{decimal, decimal_string};
use vstd::prelude::*;

verus! {

/// A process to start.
#[derive(Clone, Debug, PartialEq, Eq)]
pub struct CommandLine {
    pub program: String,
    pub args: Vec<String>,
    pub working_dir: String,
    /// Variables set for the process on top of those it inherits.
    pub env: Vec<(String, String)>,
    /// Whether standard output and standard error are captured rather
    /// than discarded.
    pub capture_output: bool,
}

/// A command line, with its texts as sequences of characters.
pub struct CommandLineView {
    pub program: Seq<char>,
    pub args: Seq<Seq<char>>,
    pub working_dir: Seq<char>,
    pub env: Seq<(Seq<char>, Seq<char>)>,
    pub capture_output: bool,
}

impl View for CommandLine {
    type V = CommandLineView;

    open spec fn view(&self) -> CommandLineView {
        CommandLineView {
            program: self.program@,
            args: self.args.deep_view(),
            working_dir: self.working_dir@,
            env: self.env.deep_view(),
            capture_output: self.capture_output,
        }
    }
}

/// The command that runs the backend: the launcher with the entry point
/// as its only argument, in the backend directory, told the port to
/// listen on and to run in production mode, its output captured.
pub open spec fn launch_command(location: BackendLocationView) -> CommandLineView {
    CommandLineView {
        program: location.launcher,
        args: seq![location.entry_point],
        working_dir: location.backend_dir,
        env: seq![("PORT"@, decimal(BACKEND_PORT as nat)), ("NODE_ENV"@, "production"@)],
        capture_output: true,
    }
}

/// The auxiliary command that installs the browser runtime, run in the
/// backend directory through the package runner.
pub open spec fn provisioning_command(
    location: BackendLocationView,
    style: PathStyle,
) -> CommandLineView {
    CommandLineView {
        program: "npx"@ + style.script_suffix(),
        args: seq!["playwright"@, "install"@, "chromium"@],
        working_dir: location.backend_dir,
        env: Seq::empty(),
        capture_output: true,
    }
}

/// The command that runs the backend.
pub fn launch_command_for(location: &BackendLocation) -> (command: CommandLine)
    ensures
        command@ == launch_command(location@),
{
    let mut args: Vec<String> = Vec::new();
    args.push(location.entry_point.clone());
    let mut env: Vec<(String, String)> = Vec::new();
    env.push((String::from_str("PORT"), decimal_string(BACKEND_PORT as u64)));
    env.push((String::from_str("NODE_ENV"), String::from_str("production")));
    let command = CommandLine {
        program: location.launcher.clone(),
        args,
        working_dir: location.backend_dir.clone(),
        env,
        capture_output: true,
    };
    assert(command@.args =~= launch_command(location@).args);
    assert(command@.env =~= launch_command(location@).env);
    command
}

/// The auxiliary command that installs the browser runtime.
pub fn provisioning_command_for(location: &BackendLocation, style: PathStyle) -> (command:
    CommandLine)
    ensures
        command@ == provisioning_command(location@, style),
{
    let mut args: Vec<String> = Vec::new();
    args.push(String::from_str("playwright"));
    args.push(String::from_str("install"));
    args.push(String::from_str("chromium"));
    let env: Vec<(String, String)> = Vec::new();
    let command = CommandLine {
        program: String::from_str("npx").concat(style.script_suffix_text()),
        args,
        working_dir: location.backend_dir.clone(),
        env,
        capture_output: true,
    };
    assert(command@.args =~= provisioning_command(location@, style).args);
    assert(command@.env =~= provisioning_command(location@, style).env);
    command
}

/// The backend is told to listen on the port at which the forwarder
/// looks for it: the digits given to the child as `PORT` are the digits
/// that end the local endpoint's address.
pub proof fn lemma_child_listens_where_forwarder_calls(location: BackendLocationView)
    ensures
        launch_command(location).env[0].0 == "PORT"@,
        (BackendEndpoint::Local { port: BACKEND_PORT }).base() == "http://127.0.0.1:"@
            + launch_command(location).env[0].1,
{
}

} // verus!
