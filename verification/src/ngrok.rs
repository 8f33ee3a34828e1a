//! The tunnel service: a single process whose start waits, for a bounded
//! time, for the public address in its output.

use crate::number::{decimal, decimal_digits};
use crate::text::text_of;
use crate::text::{after, find, found, join, owned, split_whitespace, tail, texts, words};
use vstd::prelude::*;
use vstd::string::*;

verus! {

/// Seconds after which a start that has shown no address is given up.
pub const START_TIMEOUT_SECS: u64 = 10;

/// Number of output lines kept for the report of a failed start.
pub const KEPT_LINES: usize = 20;

/// The process id of the tunnel, if one was started.
pub struct NgrokState {
    pub pid: Option<u32>,
}

/// What a start request has to do, in this order.
#[derive(Clone, Debug, PartialEq, Eq)]
pub struct NgrokLaunch {
    /// The arguments that store the token, where one was given.
    pub configure: Option<Vec<String>>,
    /// The tunnel to end first, where one ran.
    pub kill: Option<u32>,
    /// The arguments that open the tunnel.
    pub args: Vec<String>,
}

/// What the start does after one line of the tunnel's output.
#[derive(Clone, Debug, PartialEq, Eq)]
pub enum Watch {
    /// The address was found: the start succeeds with it.
    Url(String),
    /// The time is up: the process is to be killed and the start fails
    /// with this message.
    TimedOut(String),
    /// Read the next line.
    Continue,
}

pub enum WatchModel {
    Url(Seq<char>),
    TimedOut(Seq<char>),
    Continue,
}

impl View for Watch {
    type V = WatchModel;

    open spec fn view(&self) -> WatchModel {
        match self {
            Watch::Url(url) => WatchModel::Url(url@),
            Watch::TimedOut(message) => WatchModel::TimedOut(message@),
            Watch::Continue => WatchModel::Continue,
        }
    }
}

/// The arguments that store `token`. An absent or empty token stores
/// nothing.
pub open spec fn token_command(token: Option<Seq<char>>) -> Option<Seq<Seq<char>>> {
    match token {
        Some(token) => if token.len() > 0 {
            Some(seq!["config"@, "add-authtoken"@, token])
        } else {
            None
        },
        None => None,
    }
}

/// The arguments that open a tunnel to `port`, logging to the output.
pub open spec fn tunnel_command(port: u16) -> Seq<Seq<char>> {
    seq!["tcp"@, decimal_digits(port as nat), "--log=stdout"@]
}

/// The address in a line of the tunnel's output: the word that follows
/// the first `url=`.
pub open spec fn url_in(line: Seq<char>) -> Option<Seq<char>> {
    match found(line, "url="@) {
        Some(at) => {
            let rest = words(after(line, at + 4));
            if rest.len() > 0 {
                Some(rest[0])
            } else {
                None
            }
        },
        None => None,
    }
}

/// `lines`, one to a line.
pub open spec fn joined(lines: Seq<Seq<char>>) -> Seq<char>
    decreases lines.len(),
{
    if lines.len() == 0 {
        Seq::empty()
    } else if lines.len() == 1 {
        lines[0]
    } else {
        joined(lines.drop_last()) + seq!['\n'] + lines.last()
    }
}

/// The kept lines after one more: the newest `KEPT_LINES` of them.
pub open spec fn kept(recent: Seq<Seq<char>>, line: Seq<char>) -> Seq<Seq<char>> {
    if recent.len() + 1 > KEPT_LINES {
        recent.push(line).drop_first()
    } else {
        recent.push(line)
    }
}

pub open spec fn timeout_text(recent: Seq<Seq<char>>) -> Seq<char> {
    "Timed out waiting for ngrok URL. Output:\n"@ + joined(recent)
}

pub open spec fn ended_text(recent: Seq<Seq<char>>) -> Seq<char> {
    "Ngrok process finished without URL. Output:\n"@ + joined(recent)
}

pub fn token_args(token: &Option<String>) -> (args: Option<Vec<String>>)
    ensures
        match args {
            Some(args) => token_command(text_of(*token)) == Some(texts(args@)),
            None => token_command(text_of(*token)) is None,
        },
{
    match token {
        Some(token) => {
            if token.as_str().is_empty() {
                None
            } else {
                let mut args: Vec<String> = Vec::new();
                args.push(owned("config"));
                args.push(owned("add-authtoken"));
                args.push(token.clone());
                Some(args)
            }
        },
        None => None,
    }
}

pub fn tunnel_args(port: u16) -> (args: Vec<String>)
    ensures
        texts(args@) == tunnel_command(port),
{
    let mut args: Vec<String> = Vec::new();
    args.push(owned("tcp"));
    args.push(decimal(port as u64));
    args.push(owned("--log=stdout"));
    args
}

/// Finds the address in a line of the tunnel's output.
pub fn find_url(line: &str) -> (url: Option<String>)
    ensures
        text_of(url) == url_in(line@),
{
    match find(line, "url=") {
        Some(at) => {
            proof {
                reveal_strlit("url=");
            }
            let rest = tail(line, at + 4);
            let mut parts = split_whitespace(rest.as_str());
            if parts.len() > 0 {
                Some(parts.swap_remove(0))
            } else {
                None
            }
        },
        None => None,
    }
}

fn join_lines(lines: &Vec<String>) -> (out: String)
    ensures
        out@ == joined(texts(lines@)),
{
    let mut out = String::new();
    let mut i: usize = 0;
    while i < lines.len()
        invariant
            i <= lines@.len(),
            out@ == joined(texts(lines@).take(i as int)),
        decreases lines@.len() - i,
    {
        let ghost upto = texts(lines@).take(i + 1);
        assert(upto.drop_last() =~= texts(lines@).take(i as int));
        if i > 0 {
            out.push('\n');
        }
        out.append(lines[i].as_str());
        i = i + 1;
    }
    assert(texts(lines@).take(i as int) =~= texts(lines@));
    out
}

/// The watch that a start keeps on the tunnel's output.
pub struct UrlWatch {
    recent: Vec<String>,
}

impl UrlWatch {
    #[verifier::type_invariant]
    spec fn inv(self) -> bool {
        self.recent@.len() <= KEPT_LINES
    }

    /// The lines kept for a report, oldest first.
    pub closed spec fn recent(&self) -> Seq<Seq<char>> {
        texts(self.recent@)
    }

    pub fn new() -> (watch: UrlWatch)
        ensures
            watch.recent() == Seq::<Seq<char>>::empty(),
    {
        let watch = UrlWatch { recent: Vec::new() };
        watch
    }

    /// Says whether the time for the start is up, `elapsed_secs` after
    /// it began, whether or not the tunnel has printed anything. Past
    /// the limit the start is given up: the process is to be killed, and
    /// the start fails with the message.
    pub fn expired(&self, elapsed_secs: u64) -> (message: Option<String>)
        ensures
            elapsed_secs > START_TIMEOUT_SECS <==> message is Some,
            message matches Some(text) ==> text@ == timeout_text(self.recent()),
    {
        if elapsed_secs > START_TIMEOUT_SECS {
            let mut message = owned("Timed out waiting for ngrok URL. Output:\n");
            let report = join_lines(&self.recent);
            message.append(report.as_str());
            Some(message)
        } else {
            None
        }
    }

    /// Takes one line of output, read `elapsed_secs` after the start.
    /// Past the time limit the line is not looked at any more.
    pub fn observe(&mut self, line: &str, elapsed_secs: u64) -> (watch: Watch)
        ensures
            old(self).recent().len() <= KEPT_LINES,
            elapsed_secs > START_TIMEOUT_SECS ==> {
                &&& watch@ == WatchModel::TimedOut(timeout_text(old(self).recent()))
                &&& final(self).recent() == old(self).recent()
            },
            elapsed_secs <= START_TIMEOUT_SECS ==> {
                &&& final(self).recent() == kept(old(self).recent(), line@)
                &&& watch@ == match url_in(line@) {
                    Some(url) => WatchModel::Url(url),
                    None => WatchModel::Continue,
                }
            },
    {
        proof {
            use_type_invariant(&*self);
        }
        match self.expired(elapsed_secs) {
            Some(message) => {
                return Watch::TimedOut(message);
            },
            None => {},
        }
        let mut recent: Vec<String> = Vec::new();
        std::mem::swap(&mut recent, &mut self.recent);
        recent.push(owned(line));
        if recent.len() > KEPT_LINES {
            let _ = recent.remove(0);
        }
        *self = UrlWatch { recent };
        match find_url(line) {
            Some(url) => Watch::Url(url),
            None => Watch::Continue,
        }
    }

    /// The message of a start whose tunnel ended without showing an
    /// address.
    pub fn ended(&self) -> (message: String)
        ensures
            message@ == ended_text(self.recent()),
    {
        let mut message = owned("Ngrok process finished without URL. Output:\n");
        let report = join_lines(&self.recent);
        message.append(report.as_str());
        message
    }
}

impl NgrokState {
    pub fn new() -> (state: NgrokState)
        ensures
            state.pid is None,
    {
        NgrokState { pid: None }
    }
}

/// Prepares a start: the tunnel that ran is given up for termination,
/// and the commands to run are laid out.
pub fn start_ngrok(state: &mut NgrokState, port: u16, token: &Option<String>) -> (launch:
    NgrokLaunch)
    ensures
        final(state).pid is None,
        launch.kill == old(state).pid,
        texts(launch.args@) == tunnel_command(port),
        match launch.configure {
            Some(args) => token_command(text_of(*token)) == Some(texts(args@)),
            None => token_command(text_of(*token)) is None,
        },
{
    let kill = state.pid;
    state.pid = None;
    NgrokLaunch { configure: token_args(token), kill, args: tunnel_args(port) }
}

/// Records the process that the launch gave.
pub fn ngrok_started(state: &mut NgrokState, pid: u32)
    ensures
        final(state).pid == Some(pid),
{
    state.pid = Some(pid);
}

/// Gives up the tunnel and names its process for termination.
pub fn stop_ngrok(state: &mut NgrokState) -> (kill: Option<u32>)
    ensures
        kill == old(state).pid,
        final(state).pid is None,
{
    let kill = state.pid;
    state.pid = None;
    kill
}

/// Names the tunnel's process for termination when the application
/// ends.
pub fn shutdown_ngrok(state: &NgrokState) -> (kill: Option<u32>)
    ensures
        kill == state.pid,
{
    state.pid
}

/// The message for a command that could not be run.
pub fn ngrok_failure(what: &str, error: &str) -> (message: String)
    ensures
        message@ == "Failed to "@ + what@ + ": "@ + error@,
{
    let mut message = join("Failed to ", what);
    message.append(": ");
    message.append(error);
    message
}

} // verus!
