//! The automation server: a single process that is started, watched and
//! stopped on request.

use crate::number::{decimal, decimal_digits};
use crate::process::{PollStatus, ProcessHandle};
use crate::text::{split_whitespace, texts, words};
use vstd::prelude::*;
use vstd::string::*;

verus! {

#[derive(Clone, Copy, Debug, PartialEq, Eq, Structural)]
pub struct AppiumStatus {
    pub running: bool,
    pub pid: Option<u32>,
}

/// The server's process, if one was started and not yet found gone.
pub struct AppiumState {
    pub handle: Option<ProcessHandle>,
}

/// What is needed to launch the server.
#[derive(Clone, Debug, PartialEq, Eq)]
pub struct AppiumLaunch {
    pub program: String,
    pub args: Vec<String>,
}

/// Answer to a stop request.
#[derive(Clone, Debug, PartialEq, Eq)]
pub struct AppiumStop {
    pub message: String,
    /// The process to terminate, with all it has spawned.
    pub kill: Option<u32>,
}

/// Whether the held process counts as running: it does when it is held
/// and its poll says so. A poll that failed, or was not made, counts as
/// an exit.
pub open spec fn serving(handle: Option<ProcessHandle>, poll: Option<PollStatus>) -> bool {
    handle is Some && poll == Some(PollStatus::Running)
}

/// The arguments of the server command: address and port first, then
/// the words of `extra`.
pub open spec fn appium_command(host: Seq<char>, port: u32, extra: Seq<char>) -> Seq<Seq<char>> {
    seq!["--address"@, host, "--port"@, decimal_digits(port as nat)] + words(extra)
}

/// The name of the server program on the platform.
pub open spec fn appium_program(windows: bool) -> Seq<char> {
    if windows {
        "appium.cmd"@
    } else {
        "appium"@
    }
}

impl AppiumState {
    pub fn new() -> (state: AppiumState)
        ensures
            state.handle is None,
    {
        AppiumState { handle: None }
    }
}

/// Reports whether the server runs. `poll` is what polling the held
/// process gave. A process that is found gone is forgotten.
pub fn get_appium_status(state: &mut AppiumState, poll: Option<PollStatus>) -> (status:
    AppiumStatus)
    ensures
        serving(old(state).handle, poll) ==> {
            &&& status == (AppiumStatus { running: true, pid: Some(old(state).handle->0.pid) })
            &&& final(state).handle == old(state).handle
        },
        !serving(old(state).handle, poll) ==> {
            &&& status == (AppiumStatus { running: false, pid: None })
            &&& final(state).handle is None
        },
{
    match state.handle {
        Some(handle) => match poll {
            Some(PollStatus::Running) => AppiumStatus { running: true, pid: Some(handle.pid) },
            _ => {
                state.handle = None;
                AppiumStatus { running: false, pid: None }
            },
        },
        None => AppiumStatus { running: false, pid: None },
    }
}

pub fn appium_args(host: &str, port: u32, extra: &str) -> (args: Vec<String>)
    ensures
        texts(args@) == appium_command(host@, port, extra@),
{
    let mut args: Vec<String> = Vec::new();
    args.push(String::from_str("--address"));
    args.push(String::from_str(host));
    args.push(String::from_str("--port"));
    args.push(decimal(port as u64));
    let mut rest = split_whitespace(extra);
    args.append(&mut rest);
    args
}

/// Decides a start request. While the server runs, a second one is
/// refused; otherwise the launch is described, and the state is left for
/// `appium_started` to fill.
pub fn start_appium_server(
    state: &AppiumState,
    poll: Option<PollStatus>,
    host: &str,
    port: u32,
    args: &str,
    windows: bool,
) -> (launch: Result<AppiumLaunch, String>)
    ensures
        serving(state.handle, poll) ==> {
            &&& launch matches Err(message)
            &&& message@ == "Appium is already running"@
        },
        !serving(state.handle, poll) ==> {
            &&& launch matches Ok(plan)
            &&& plan.program@ == appium_program(windows)
            &&& texts(plan.args@) == appium_command(host@, port, args@)
        },
{
    match state.handle {
        Some(_) => match poll {
            Some(PollStatus::Running) => {
                return Err(String::from_str("Appium is already running"));
            },
            _ => {},
        },
        None => {},
    }
    let program = if windows {
        String::from_str("appium.cmd")
    } else {
        String::from_str("appium")
    };
    Ok(AppiumLaunch { program, args: appium_args(host, port, args) })
}

/// Records the process that a launch gave. A process that was still
/// held is returned: it is to be terminated.
pub fn appium_started(state: &mut AppiumState, pid: u32) -> (out: (String, Option<u32>))
    ensures
        final(state).handle == Some(ProcessHandle::fresh(pid)),
        out.0@ == "Appium started"@,
        out.1 == match old(state).handle {
            Some(handle) => Some(handle.pid),
            None => None,
        },
{
    let replaced = match state.handle {
        Some(handle) => Some(handle.pid),
        None => None,
    };
    state.handle = Some(ProcessHandle::new(pid));
    (String::from_str("Appium started"), replaced)
}

/// The message for a launch that failed with `error`.
pub fn appium_start_failure(error: &str) -> (message: String)
    ensures
        message@ == "Failed to start appium: "@ + error@,
{
    crate::text::join("Failed to start appium: ", error)
}

/// Gives up the server's process and names it for termination.
pub fn stop_appium_server(state: &mut AppiumState) -> (stopped: AppiumStop)
    ensures
        final(state).handle is None,
        old(state).handle is Some ==> stopped.message@ == "Appium stopped"@ && stopped.kill
            == Some(old(state).handle->0.pid),
        old(state).handle is None ==> stopped.message@ == "Appium was not running"@
            && stopped.kill is None,
{
    match state.handle {
        Some(handle) => {
            state.handle = None;
            AppiumStop { message: String::from_str("Appium stopped"), kill: Some(handle.pid) }
        },
        None => AppiumStop { message: String::from_str("Appium was not running"), kill: None },
    }
}

} // verus!
