//! Log capture: one supervised log stream for each device, restarted when
//! the watched application comes back under a new process id.

use crate::buffer::HIGH_WATER;
use crate::monitor::Lookup;
use crate::number::{parse_i32, signed_value};
use crate::registry::{
    after_start, after_stop, Registry, StartOutcome, StopOutcome, UnitConfig, UnitModel,
};
use crate::supervisor::Policy;
use crate::text::{copy_text, join, owned, text_of, texts, trim, trimmed};
use vstd::prelude::*;
use vstd::string::*;

verus! {

/// From this out-of-memory score on, a process is only cached in the
/// background and does not count as running.
pub const CACHED_SCORE: i32 = 900;

/// Whether a log stream runs for a device, and the file it is mirrored to.
#[derive(Clone, Debug, PartialEq, Eq)]
pub struct LogcatDetails {
    pub is_active: bool,
    pub output_file: Option<String>,
}

/// What the supervisor of one log stream works with.
#[derive(Clone, Debug, PartialEq, Eq)]
pub struct LogcatProcess {
    pub device: String,
    /// The id under which the stream's unit was admitted.
    pub unit: u64,
    /// The package whose process the stream is bound to, if any.
    pub filter: Option<String>,
    /// The lowest priority that is shown.
    pub level: String,
    pub output_file: Option<String>,
}

/// The log streams of all devices.
pub struct LogcatState {
    pub registry: Registry,
}

/// Answer to a start request.
#[derive(Clone, Debug, PartialEq, Eq)]
pub struct LogcatStart {
    pub message: String,
    /// The line that announces the stream, if one was admitted. It is for
    /// the caller to show: the output buffer takes only what the relay
    /// reads from the process.
    pub header: Option<String>,
    /// The stream to supervise, if one was admitted.
    pub process: Option<LogcatProcess>,
}

/// The line that announces a stream.
pub open spec fn header(device: Seq<char>, output_file: Option<Seq<char>>) -> Seq<char> {
    match output_file {
        Some(path) => "--- Logcat started for device: "@ + device + " (Writing to "@ + path
            + ") ---"@,
        None => "--- Logcat started for device: "@ + device + " ---"@,
    }
}

/// The level that is shown when none is asked for.
pub open spec fn level_or_default(level: Option<Seq<char>>) -> Seq<char> {
    match level {
        Some(level) => level,
        None => "V"@,
    }
}

/// The arguments of the log command for a device: bound to the process
/// `pid` if there is one, in the thread-time format, from `level` up.
pub open spec fn logcat_command(device: Seq<char>, pid: Option<Seq<char>>, level: Seq<char>) -> Seq<
    Seq<char>,
> {
    let target = seq!["-s"@, device, "shell"@, "logcat"@];
    let bound = match pid {
        Some(pid) => seq!["--pid"@, pid],
        None => Seq::empty(),
    };
    target + bound + seq!["-v"@, "threadtime"@, "*:"@ + level]
}

/// The arguments of the command that asks a device for the process id of
/// a package.
pub open spec fn pidof_command(device: Seq<char>, package: Seq<char>) -> Seq<Seq<char>> {
    seq!["-s"@, device, "shell"@, "pidof"@, "-s"@, package]
}

/// The arguments of the command that asks a device for the out-of-memory
/// score of a process.
pub open spec fn score_command(device: Seq<char>, pid: Seq<char>) -> Seq<Seq<char>> {
    seq!["-s"@, device, "shell"@, "cat"@, "/proc/"@ + pid + "/oom_score_adj"@]
}

/// The process id in the answer to a process id query: the answer
/// without white space around it, unless nothing is left.
pub open spec fn pid_in(answer: Seq<char>) -> Option<Seq<char>> {
    if trimmed(answer).len() == 0 {
        None
    } else {
        Some(trimmed(answer))
    }
}

/// Whether the answer to a score query shows a cached process. An answer
/// that is no number shows nothing.
pub open spec fn is_cached(answer: Seq<char>) -> bool {
    match signed_value(trimmed(answer), 0x8000_0000, 0x7fff_ffff) {
        Some(score) => score >= CACHED_SCORE,
        None => false,
    }
}

pub fn logcat_args(device: &str, pid: Option<&str>, level: &str) -> (args: Vec<String>)
    ensures
        texts(args@) == logcat_command(
            device@,
            match pid {
                Some(pid) => Some(pid@),
                None => None,
            },
            level@,
        ),
{
    let mut args: Vec<String> = Vec::new();
    args.push(owned("-s"));
    args.push(owned(device));
    args.push(owned("shell"));
    args.push(owned("logcat"));
    match pid {
        Some(pid) => {
            args.push(owned("--pid"));
            args.push(owned(pid));
        },
        None => {},
    }
    args.push(owned("-v"));
    args.push(owned("threadtime"));
    args.push(join("*:", level));
    args
}

pub fn pidof_args(device: &str, package: &str) -> (args: Vec<String>)
    ensures
        texts(args@) == pidof_command(device@, package@),
{
    let mut args: Vec<String> = Vec::new();
    args.push(owned("-s"));
    args.push(owned(device));
    args.push(owned("shell"));
    args.push(owned("pidof"));
    args.push(owned("-s"));
    args.push(owned(package));
    args
}

pub fn score_args(device: &str, pid: &str) -> (args: Vec<String>)
    ensures
        texts(args@) == score_command(device@, pid@),
{
    let mut path = join("/proc/", pid);
    path.append("/oom_score_adj");
    let mut args: Vec<String> = Vec::new();
    args.push(owned("-s"));
    args.push(owned(device));
    args.push(owned("shell"));
    args.push(owned("cat"));
    args.push(path);
    args
}

/// Reads the answer to a process id query.
pub fn parse_pid(answer: &str) -> (pid: Option<String>)
    ensures
        text_of(pid) == pid_in(answer@),
{
    let pid = trim(answer);
    if pid.as_str().is_empty() {
        None
    } else {
        Some(pid)
    }
}

/// What a lookup found, from the answers of the device. `pid_answer` is
/// absent where the process id query could not be run, `score_answer`
/// where the score query could not.
pub open spec fn lookup_of(pid_answer: Option<Seq<char>>, score_answer: Option<Seq<char>>) -> crate::monitor::LookupModel {
    match pid_answer {
        None => crate::monitor::LookupModel::Failed,
        Some(answer) => match pid_in(answer) {
            None => crate::monitor::LookupModel::NotFound,
            Some(pid) => if score_answer is Some && is_cached(score_answer->0) {
                crate::monitor::LookupModel::Stale
            } else {
                crate::monitor::LookupModel::Found(pid)
            },
        },
    }
}

/// Decides what a lookup found. The score answer is read only where the
/// process id answer holds a process id.
pub fn get_pid(pid_answer: Option<&str>, score_answer: Option<&str>) -> (lookup: Lookup)
    ensures
        lookup@ == lookup_of(
            match pid_answer {
                Some(answer) => Some(answer@),
                None => None,
            },
            match score_answer {
                Some(answer) => Some(answer@),
                None => None,
            },
        ),
{
    let answer = match pid_answer {
        Some(answer) => answer,
        None => {
            return Lookup::Failed;
        },
    };
    let pid = match parse_pid(answer) {
        Some(pid) => pid,
        None => {
            return Lookup::NotFound;
        },
    };
    match score_answer {
        Some(score_text) => {
            let score_text = trim(score_text);
            match parse_i32(score_text.as_str()) {
                Some(score) => if score >= CACHED_SCORE {
                    Lookup::Stale
                } else {
                    Lookup::Found(pid)
                },
                None => Lookup::Found(pid),
            }
        },
        None => Lookup::Found(pid),
    }
}

impl LogcatState {
    pub fn new() -> (state: LogcatState)
        ensures
            state.registry@ == Map::<Seq<char>, UnitModel>::empty(),
            state.registry.admitted() == 0,
    {
        LogcatState { registry: Registry::new() }
    }
}

/// The configuration of a log stream's unit.
pub open spec fn stream_config(filter: Option<String>, output_file: Option<String>) -> UnitConfig {
    UnitConfig { policy: Policy::Supervised, filter, mirror_file: output_file }
}

/// Admits a log stream for `device`, unless one runs already. The
/// stream starts with no output; the line that announces it is handed
/// back. A refusal changes nothing, whatever filter, level and file are
/// asked for.
pub fn start_logcat(
    state: &mut LogcatState,
    device: String,
    filter: Option<String>,
    level: Option<String>,
    output_file: Option<String>,
) -> (started: LogcatStart)
    requires
        old(state).registry@.contains_key(device@) || old(state).registry.admitted() < u64::MAX,
    ensures
        old(state).registry@.contains_key(device@) ==> {
            &&& started.message@ == "Logcat already running"@
            &&& started.header is None
            &&& started.process is None
            &&& final(state).registry@ == old(state).registry@
            &&& final(state).registry.admitted() == old(state).registry.admitted()
        },
        !old(state).registry@.contains_key(device@) ==> {
            &&& started.message@ == "Logcat started"@
            &&& started.process matches Some(process)
            &&& process.device@ == device@
            &&& process.unit == old(state).registry.admitted()
            &&& text_of(process.filter) == text_of(filter)
            &&& process.level@ == level_or_default(text_of(level))
            &&& text_of(process.output_file) == text_of(output_file)
            &&& started.header matches Some(line)
            &&& line@ == header(device@, text_of(output_file))
            &&& final(state).registry@ == after_start(
                old(state).registry@,
                device@,
                process.unit,
                stream_config(filter, output_file),
            )
            &&& final(state).registry.admitted() == old(state).registry.admitted() + 1
        },
{
    let config = UnitConfig {
        policy: Policy::Supervised,
        filter: copy_text(&filter),
        mirror_file: copy_text(&output_file),
    };
    match state.registry.start(device.clone(), config) {
        StartOutcome::AlreadyRunning => LogcatStart {
            message: owned("Logcat already running"),
            header: None,
            process: None,
        },
        StartOutcome::Started(unit) => {
            let mut line = join("--- Logcat started for device: ", device.as_str());
            match &output_file {
                Some(path) => {
                    line.append(" (Writing to ");
                    line.append(path.as_str());
                    line.append(") ---");
                },
                None => {
                    line.append(" ---");
                },
            }
            let level = match level {
                Some(level) => level,
                None => owned("V"),
            };
            LogcatStart {
                message: owned("Logcat started"),
                header: Some(line),
                process: Some(LogcatProcess { device, unit, filter, level, output_file }),
            }
        },
    }
}

/// Answer to a stop request.
#[derive(Clone, Debug, PartialEq, Eq)]
pub struct LogcatStop {
    pub message: String,
    /// The process to terminate, if the stream held one.
    pub kill: Option<u32>,
}

/// Removes the log stream of `device` and names its process for
/// termination.
pub fn stop_logcat(state: &mut LogcatState, device: &str) -> (stopped: LogcatStop)
    ensures
        final(state).registry@ == after_stop(old(state).registry@, device@),
        final(state).registry.admitted() == old(state).registry.admitted(),
        old(state).registry@.contains_key(device@) ==> stopped.message@ == "Logcat stopped"@
            && stopped.kill == old(state).registry@[device@].pid(),
        !old(state).registry@.contains_key(device@) ==> stopped.message@ == "Logcat not running"@
            && stopped.kill is None,
{
    match state.registry.stop(device) {
        StopOutcome::Stopped { kill } => LogcatStop { message: owned("Logcat stopped"), kill },
        StopOutcome::NotRunning => LogcatStop { message: owned("Logcat not running"), kill: None },
    }
}

pub fn is_logcat_active(state: &LogcatState, device: &str) -> (active: bool)
    ensures
        active == state.registry@.contains_key(device@),
{
    state.registry.contains(device)
}

pub fn get_logcat_details(state: &LogcatState, device: &str) -> (details: LogcatDetails)
    ensures
        details.is_active == state.registry@.contains_key(device@),
        text_of(details.output_file) == if state.registry@.contains_key(device@) {
            state.registry@[device@].mirror_file
        } else {
            None
        },
{
    let status = state.registry.query(device);
    LogcatDetails { is_active: status.active, output_file: status.mirror_file }
}

/// The lines of the stream of `device` from `offset` on, and the offset
/// to ask from next.
pub fn fetch_logcat_buffer(state: &LogcatState, device: &str, offset: usize) -> (out: (
    Vec<String>,
    usize,
))
    ensures
        state.registry@.contains_key(device@) ==> {
            &&& texts(out.0@) == state.registry@[device@].buffer.since(offset as nat)
            &&& out.1 == state.registry@[device@].buffer.end()
            &&& state.registry@[device@].buffer.bounded()
        },
        !state.registry@.contains_key(device@) ==> out.0@.len() == 0 && out.1 == 0,
        out.0@.len() <= HIGH_WATER,
{
    let out = state.registry.drain_output(device, offset);
    out
}

} // verus!
