//! Commands of the device bridge: those that are run to their end, and
//! those that stream their output until they end or are stopped.

use crate::registry::{
    after_start, after_stop, Registry, StartOutcome, StopOutcome, UnitConfig, UnitModel,
};
use crate::supervisor::Policy;
use crate::text::{
    contains, found, join, owned, split_whitespace, text_of, texts, trim, trimmed, words,
};
use vstd::prelude::*;
use vstd::string::*;

verus! {

/// Entry point for shell commands; it carries no state of its own.
#[derive(Clone, Copy, Debug, PartialEq, Eq, Structural)]
pub struct ShellManager;

impl ShellManager {
    pub fn new() -> (manager: ShellManager)
        ensures
            manager == ShellManager,
    {
        ShellManager
    }
}

/// The streaming commands in progress, by the id their caller gave them.
pub struct ShellState {
    pub running_commands: Registry,
}

/// What is needed to launch an admitted command.
#[derive(Clone, Debug, PartialEq, Eq)]
pub struct ShellStart {
    /// The id under which the command's unit was admitted.
    pub unit: u64,
    pub args: Vec<String>,
    /// The event that carries each output line.
    pub output_event: String,
    /// The event that tells of the end of the output.
    pub close_event: String,
}

/// The arguments of a command on a device: the device first, then the
/// words of the command.
pub open spec fn device_command(device: Seq<char>, command: Seq<char>) -> Seq<Seq<char>> {
    seq!["-s"@, device] + words(command)
}

/// What a command that ran to its end answers: its output where it
/// succeeded, its error output where it did not.
pub open spec fn reply_text(success: bool, stdout: Seq<char>, stderr: Seq<char>) -> Result<
    Seq<char>,
    Seq<char>,
> {
    if success {
        Ok(stdout)
    } else {
        Err(stderr)
    }
}

pub open spec fn result_text(reply: Result<String, String>) -> Result<Seq<char>, Seq<char>> {
    match reply {
        Ok(text) => Ok(text@),
        Err(text) => Err(text@),
    }
}

pub fn device_args(device: &str, command: &str) -> (args: Vec<String>)
    ensures
        texts(args@) == device_command(device@, command@),
{
    let mut args: Vec<String> = Vec::new();
    args.push(owned("-s"));
    args.push(owned(device));
    let mut rest = split_whitespace(command);
    args.append(&mut rest);
    args
}

/// The answer of the version query: the outputs as they are.
pub fn get_adb_version(success: bool, stdout: &str, stderr: &str) -> (reply: Result<String, String>)
    ensures
        result_text(reply) == reply_text(success, stdout@, stderr@),
{
    if success {
        Ok(owned(stdout))
    } else {
        Err(owned(stderr))
    }
}

/// The answer of a command that ran to its end: the outputs without
/// white space around them.
pub fn run_adb_command(success: bool, stdout: &str, stderr: &str) -> (reply: Result<String, String>)
    ensures
        result_text(reply) == reply_text(success, trimmed(stdout@), trimmed(stderr@)),
{
    if success {
        Ok(trim(stdout))
    } else {
        Err(trim(stderr))
    }
}

/// The arguments that stop the bridge's server.
pub fn kill_server_args() -> (args: Vec<String>)
    ensures
        texts(args@) == seq!["kill-server"@],
{
    let mut args: Vec<String> = Vec::new();
    args.push(owned("kill-server"));
    args
}

/// The arguments that start the bridge's server.
pub fn start_server_args() -> (args: Vec<String>)
    ensures
        texts(args@) == seq!["start-server"@],
{
    let mut args: Vec<String> = Vec::new();
    args.push(owned("start-server"));
    args
}

/// The answer of stopping the server: the command's output without
/// white space around it.
pub fn kill_adb_server(stdout: &str) -> (reply: String)
    ensures
        reply@ == trimmed(stdout@),
{
    trim(stdout)
}

/// The answer of starting the server: the command's output without
/// white space around it.
pub fn start_adb_server(stdout: &str) -> (reply: String)
    ensures
        reply@ == trimmed(stdout@),
{
    trim(stdout)
}

/// The report of a server restart, from the outputs of the two commands.
pub fn restart_adb_server(kill_output: &str, start_output: &str) -> (report: String)
    ensures
        report@ == "Server Restarted.\nKill: "@ + kill_output@ + "\nStart: "@ + start_output@,
{
    let mut report = join("Server Restarted.\nKill: ", kill_output);
    report.append("\nStart: ");
    report.append(start_output);
    report
}

/// Whether the task list of a Windows machine shows the bridge's server.
pub fn is_adb_server_running(task_list: &str) -> (running: bool)
    ensures
        running == found(task_list@, "adb.exe"@) is Some,
{
    contains(task_list, "adb.exe")
}

/// The configuration of a streaming command's unit.
pub open spec fn command_config() -> UnitConfig {
    UnitConfig { policy: Policy::OneShot, filter: None, mirror_file: None }
}

impl ShellState {
    pub fn new() -> (state: ShellState)
        ensures
            state.running_commands@ == Map::<Seq<char>, UnitModel>::empty(),
            state.running_commands.admitted() == 0,
    {
        ShellState { running_commands: Registry::new() }
    }
}

impl Default for ShellState {
    fn default() -> (state: ShellState)
        ensures
            state.running_commands@ == Map::<Seq<char>, UnitModel>::empty(),
            state.running_commands.admitted() == 0,
    {
        ShellState::new()
    }
}

/// Admits a streaming command under `id` and says how to launch it. An id
/// that is in use is refused.
pub fn start_adb_command(state: &mut ShellState, id: String, device: &str, command: &str) -> (launch:
    Result<ShellStart, String>)
    requires
        old(state).running_commands@.contains_key(id@) || old(state).running_commands.admitted()
            < u64::MAX,
    ensures
        old(state).running_commands@.contains_key(id@) ==> {
            &&& launch matches Err(message)
            &&& message@ == "Command already running"@
            &&& final(state).running_commands@ == old(state).running_commands@
            &&& final(state).running_commands.admitted() == old(state).running_commands.admitted()
        },
        !old(state).running_commands@.contains_key(id@) ==> {
            &&& launch matches Ok(start)
            &&& start.unit == old(state).running_commands.admitted()
            &&& texts(start.args@) == device_command(device@, command@)
            &&& start.output_event@ == "cmd-output-"@ + id@
            &&& start.close_event@ == "cmd-close-"@ + id@
            &&& final(state).running_commands@ == after_start(
                old(state).running_commands@,
                id@,
                start.unit,
                command_config(),
            )
            &&& final(state).running_commands.admitted() == old(state).running_commands.admitted()
                + 1
        },
{
    let config = UnitConfig { policy: Policy::OneShot, filter: None, mirror_file: None };
    match state.running_commands.start(id.clone(), config) {
        StartOutcome::AlreadyRunning => Err(owned("Command already running")),
        StartOutcome::Started(unit) => Ok(
            ShellStart {
                unit,
                args: device_args(device, command),
                output_event: join("cmd-output-", id.as_str()),
                close_event: join("cmd-close-", id.as_str()),
            },
        ),
    }
}

/// Answer to a stop request.
#[derive(Clone, Debug, PartialEq, Eq)]
pub struct ShellStop {
    /// The process to terminate, if a command ran and held one.
    pub kill: Option<u32>,
    /// The notice that no command ran under the id; absent where one did.
    pub notice: Option<String>,
}

/// The notice of a stop request: there is one exactly where no command
/// ran under the id.
pub open spec fn stop_notice(ran: bool) -> Option<Seq<char>> {
    if ran {
        None
    } else {
        Some("Command not found"@)
    }
}

/// Removes the streaming command `id` and names its process for
/// termination. To stop a command that does not run is no error: the
/// answer carries a notice, and nothing is changed or killed.
pub fn stop_adb_command(state: &mut ShellState, id: &str) -> (stopped: Result<ShellStop, String>)
    ensures
        final(state).running_commands@ == after_stop(old(state).running_commands@, id@),
        final(state).running_commands.admitted() == old(state).running_commands.admitted(),
        stopped matches Ok(stop) && {
            &&& text_of(stop.notice) == stop_notice(old(state).running_commands@.contains_key(id@))
            &&& stop.kill == if old(state).running_commands@.contains_key(id@) {
                old(state).running_commands@[id@].pid()
            } else {
                None
            }
        },
        !old(state).running_commands@.contains_key(id@) ==> final(state).running_commands@ == old(
            state,
        ).running_commands@,
{
    match state.running_commands.stop(id) {
        StopOutcome::Stopped { kill } => Ok(ShellStop { kill, notice: None }),
        StopOutcome::NotRunning => Ok(
            ShellStop { kill: None, notice: Some(owned("Command not found")) },
        ),
    }
}

} // verus!
