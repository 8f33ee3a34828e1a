//! Test runs: one-shot units that stream their output as events and end
//! with a final event.

use crate::clock::local_timestamp;
use crate::process::Stream;
use crate::registry::{
    after_start, after_stop, Registry, StartOutcome, StopOutcome, UnitConfig, UnitModel,
};
use crate::supervisor::{Completion, Policy};
use crate::text::text_of;
use crate::text::{chars_of, join, owned, string_of, texts, trim_end, trimmed_end};
use vstd::prelude::*;
use vstd::string::*;

verus! {

/// The test runs in progress, by run id.
pub struct TestState {
    pub registry: Registry,
}

/// One line of a run's output, as it is announced.
#[derive(Clone, Debug, PartialEq, Eq)]
pub struct TestOutput {
    pub run_id: String,
    pub message: String,
}

/// The end of a run, as it is announced.
#[derive(Clone, Debug, PartialEq, Eq)]
pub struct TestFinished {
    pub run_id: String,
    pub status: String,
}

/// What is needed to launch an admitted run.
#[derive(Clone, Debug, PartialEq, Eq)]
pub struct RobotRun {
    /// The id under which the run's unit was admitted.
    pub unit: u64,
    /// The arguments of the test command.
    pub args: Vec<String>,
    /// The text of the run's metadata file.
    pub metadata: String,
    pub message: String,
}

/// Answer to a stop request.
#[derive(Clone, Debug, PartialEq, Eq)]
pub struct TestStop {
    /// That the run was stopped, or that it was not running.
    pub message: String,
    /// The process to terminate, with all it has spawned.
    pub kill: Option<u32>,
}

pub open spec fn text_or_empty(value: Option<Seq<char>>) -> Seq<char> {
    match value {
        Some(text) => text,
        None => Seq::empty(),
    }
}

/// The prefix that marks a verbatim path on Windows.
pub open spec fn verbatim_prefix() -> Seq<char> {
    seq!['\\', '\\', '?', '\\']
}

/// A resolved path without the verbatim prefix.
pub open spec fn plain_path(path: Seq<char>) -> Seq<char> {
    if verbatim_prefix().is_prefix_of(path) {
        path.skip(4)
    } else {
        path
    }
}

/// The directory that a run writes to: the resolved form of the given
/// one without the verbatim prefix, or the given one where it could not
/// be resolved.
pub fn clean_output_dir(resolved: Option<&str>, given: &str) -> (dir: String)
    ensures
        dir@ == match resolved {
            Some(path) => plain_path(path@),
            None => given@,
        },
{
    match resolved {
        None => owned(given),
        Some(path) => {
            let chars = chars_of(path);
            if chars.len() >= 4 && chars[0] == '\\' && chars[1] == '\\' && chars[2] == '?'
                && chars[3] == '\\' {
                let dir = string_of(&chars, 4, chars.len());
                dir
            } else {
                owned(path)
            }
        },
    }
}

/// The arguments of the test command.
pub open spec fn robot_command(
    output_dir: Seq<char>,
    timestamp_outputs: Option<bool>,
    device: Option<Seq<char>>,
    arguments_file: Option<Seq<char>>,
    test_path: Option<Seq<char>>,
) -> Seq<Seq<char>> {
    let base = seq!["-d"@, output_dir, "--console"@, "verbose"@];
    let stamped = if timestamp_outputs == Some(true) {
        seq!["--timestampoutputs"@]
    } else {
        Seq::empty()
    };
    let target = match device {
        Some(device) => seq!["-v"@, "udid:"@ + device],
        None => Seq::empty(),
    };
    let file = match arguments_file {
        Some(file) => seq!["-A"@, file],
        None => Seq::empty(),
    };
    let tests = match test_path {
        Some(path) => if path.len() > 0 {
            seq![path]
        } else {
            Seq::empty()
        },
        None => Seq::empty(),
    };
    base + stamped + target + file + tests
}

pub fn robot_args(
    output_dir: &str,
    timestamp_outputs: Option<bool>,
    device: &Option<String>,
    arguments_file: &Option<String>,
    test_path: &Option<String>,
) -> (args: Vec<String>)
    ensures
        texts(args@) == robot_command(
            output_dir@,
            timestamp_outputs,
            text_of(*device),
            text_of(*arguments_file),
            text_of(*test_path),
        ),
{
    let mut args: Vec<String> = Vec::new();
    args.push(owned("-d"));
    args.push(owned(output_dir));
    args.push(owned("--console"));
    args.push(owned("verbose"));
    match timestamp_outputs {
        Some(true) => {
            args.push(owned("--timestampoutputs"));
        },
        _ => {},
    }
    match device {
        Some(device) => {
            args.push(owned("-v"));
            args.push(join("udid:", device.as_str()));
        },
        None => {},
    }
    match arguments_file {
        Some(file) => {
            args.push(owned("-A"));
            args.push(file.clone());
        },
        None => {},
    }
    match test_path {
        Some(path) => {
            if !path.as_str().is_empty() {
                args.push(path.clone());
            }
        },
        None => {},
    }
    args
}

pub open spec fn escaped_char(c: char) -> Seq<char> {
    if c == '\\' {
        seq!['\\', '\\']
    } else if c == '"' {
        seq!['\\', '"']
    } else {
        seq![c]
    }
}

/// `s` as it stands between the quotes of a JSON string: a backslash
/// before each backslash and each quote.
pub open spec fn escaped(s: Seq<char>) -> Seq<char>
    decreases s.len(),
{
    if s.len() == 0 {
        Seq::empty()
    } else {
        escaped(s.drop_last()) + escaped_char(s.last())
    }
}

pub fn escape(s: &str) -> (out: String)
    ensures
        out@ == escaped(s@),
{
    let chars = chars_of(s);
    let mut out = String::new();
    let mut i: usize = 0;
    while i < chars.len()
        invariant
            i <= chars@.len(),
            out@ == escaped(chars@.take(i as int)),
        decreases chars@.len() - i,
    {
        let c = chars[i];
        assert(chars@.take(i + 1).drop_last() =~= chars@.take(i as int));
        if c == '\\' {
            out.push('\\');
            out.push('\\');
        } else if c == '"' {
            out.push('\\');
            out.push('"');
        } else {
            out.push(c);
        }
        i = i + 1;
    }
    assert(chars@.take(i as int) =~= chars@);
    out
}

/// The device that a run without a device is recorded under.
pub open spec fn device_or_local(device: Option<Seq<char>>) -> Seq<char> {
    match device {
        Some(device) => device,
        None => "Local/Unknown"@,
    }
}

/// The text of a run's metadata file.
pub open spec fn metadata_text(
    run_id: Seq<char>,
    device: Option<Seq<char>>,
    test_path: Option<Seq<char>>,
    timestamp: Seq<char>,
    model: Option<Seq<char>>,
    version: Option<Seq<char>>,
) -> Seq<char> {
    "{\n            \"run_id\": \""@ + run_id + "\",\n            \"device_udid\": \""@ + escaped(
        device_or_local(device),
    ) + "\",\n            \"test_path\": \""@ + escaped(text_or_empty(test_path))
        + "\",\n            \"timestamp\": \""@ + timestamp
        + "\",\n            \"device_model\": \""@ + escaped(text_or_empty(model))
        + "\",\n            \"android_version\": \""@ + escaped(text_or_empty(version))
        + "\"\n        }"@
}

fn escaped_or_empty(value: &Option<String>) -> (out: String)
    ensures
        out@ == escaped(text_or_empty(text_of(*value))),
{
    match value {
        Some(text) => escape(text.as_str()),
        None => String::new(),
    }
}

/// Writes the metadata of a run that starts at `timestamp`.
pub fn metadata_json(
    run_id: &str,
    device: &Option<String>,
    test_path: &Option<String>,
    timestamp: &str,
    model: &Option<String>,
    version: &Option<String>,
) -> (out: String)
    ensures
        out@ == metadata_text(
            run_id@,
            text_of(*device),
            text_of(*test_path),
            timestamp@,
            text_of(*model),
            text_of(*version),
        ),
{
    let device_text = match device {
        Some(device) => escape(device.as_str()),
        None => escape("Local/Unknown"),
    };
    let path_text = escaped_or_empty(test_path);
    let model_text = escaped_or_empty(model);
    let version_text = escaped_or_empty(version);
    let mut out = owned("{\n            \"run_id\": \"");
    out.append(run_id);
    out.append("\",\n            \"device_udid\": \"");
    out.append(device_text.as_str());
    out.append("\",\n            \"test_path\": \"");
    out.append(path_text.as_str());
    out.append("\",\n            \"timestamp\": \"");
    out.append(timestamp);
    out.append("\",\n            \"device_model\": \"");
    out.append(model_text.as_str());
    out.append("\",\n            \"android_version\": \"");
    out.append(version_text.as_str());
    out.append("\"\n        }");
    out
}

/// The message that announces a line read from a stream of a run: the
/// line without trailing white space, marked where it is an error line.
pub open spec fn output_text(stream: Stream, raw: Seq<char>) -> Seq<char> {
    match stream {
        Stream::Stdout => trimmed_end(raw),
        Stream::Stderr => "STDERR: "@ + trimmed_end(raw),
    }
}

pub fn test_output(run_id: &str, stream: Stream, raw: &str) -> (output: TestOutput)
    ensures
        output.run_id@ == run_id@,
        output.message@ == output_text(stream, raw@),
{
    let line = trim_end(raw);
    let message = match stream {
        Stream::Stdout => line,
        Stream::Stderr => join("STDERR: ", line.as_str()),
    };
    TestOutput { run_id: owned(run_id), message }
}

/// The status that announces how a run ended. `detail` is what the
/// system said of it: the exit status, or the error.
pub open spec fn status_text(completion: Completion, detail: Seq<char>) -> Seq<char> {
    match completion {
        Completion::Exited(_) => "Exit Code: "@ + detail,
        Completion::StatusUnknown => "Error checking status: "@ + detail,
        Completion::NotStarted => "Failed to start robot: "@ + detail
            + ". Make sure 'robot' is requested in PATH."@,
    }
}

pub fn test_finished(run_id: &str, completion: Completion, detail: &str) -> (finished: TestFinished)
    ensures
        finished.run_id@ == run_id@,
        finished.status@ == status_text(completion, detail@),
{
    let status = match completion {
        Completion::Exited(_) => join("Exit Code: ", detail),
        Completion::StatusUnknown => join("Error checking status: ", detail),
        Completion::NotStarted => {
            let mut text = join("Failed to start robot: ", detail);
            text.append(". Make sure 'robot' is requested in PATH.");
            text
        },
    };
    TestFinished { run_id: owned(run_id), status }
}

/// The configuration of a run's unit.
pub open spec fn run_config() -> UnitConfig {
    UnitConfig { policy: Policy::OneShot, filter: None, mirror_file: None }
}

impl TestState {
    pub fn new() -> (state: TestState)
        ensures
            state.registry@ == Map::<Seq<char>, UnitModel>::empty(),
            state.registry.admitted() == 0,
    {
        TestState { registry: Registry::new() }
    }
}

/// Admits a run under `run_id` and says how to launch it. A run id that
/// is in use is refused before anything is launched.
pub fn run_robot_test(
    state: &mut TestState,
    run_id: String,
    test_path: Option<String>,
    output_dir: String,
    device: Option<String>,
    arguments_file: Option<String>,
    timestamp_outputs: Option<bool>,
    device_model: Option<String>,
    android_version: Option<String>,
) -> (launch: Result<RobotRun, String>)
    requires
        old(state).registry@.contains_key(run_id@) || old(state).registry.admitted() < u64::MAX,
    ensures
        old(state).registry@.contains_key(run_id@) ==> {
            &&& launch matches Err(message)
            &&& message@ == "Run ID "@ + run_id@ + " already exists"@
            &&& final(state).registry@ == old(state).registry@
            &&& final(state).registry.admitted() == old(state).registry.admitted()
        },
        !old(state).registry@.contains_key(run_id@) ==> {
            &&& launch matches Ok(run)
            &&& run.unit == old(state).registry.admitted()
            &&& run.message@ == "Started"@
            &&& texts(run.args@) == robot_command(
                output_dir@,
                timestamp_outputs,
                text_of(device),
                text_of(arguments_file),
                text_of(test_path),
            )
            &&& exists|timestamp: Seq<char>|
                run.metadata@ == #[trigger] metadata_text(
                    run_id@,
                    text_of(device),
                    text_of(test_path),
                    timestamp,
                    text_of(device_model),
                    text_of(android_version),
                )
            &&& final(state).registry@ == after_start(
                old(state).registry@,
                run_id@,
                run.unit,
                run_config(),
            )
            &&& final(state).registry.admitted() == old(state).registry.admitted() + 1
        },
{
    let config = UnitConfig { policy: Policy::OneShot, filter: None, mirror_file: None };
    match state.registry.start(run_id.clone(), config) {
        StartOutcome::AlreadyRunning => {
            let mut message = join("Run ID ", run_id.as_str());
            message.append(" already exists");
            Err(message)
        },
        StartOutcome::Started(unit) => {
            let args = robot_args(
                output_dir.as_str(),
                timestamp_outputs,
                &device,
                &arguments_file,
                &test_path,
            );
            let timestamp = local_timestamp();
            let metadata = metadata_json(
                run_id.as_str(),
                &device,
                &test_path,
                timestamp.as_str(),
                &device_model,
                &android_version,
            );
            Ok(RobotRun { unit, args, metadata, message: owned("Started") })
        },
    }
}

/// Removes the run `run_id` and names its process for termination. To
/// stop a run that is not running is no error: the answer says so, and
/// nothing is changed or killed.
pub fn stop_robot_test(state: &mut TestState, run_id: &str) -> (stopped: Result<TestStop, String>)
    ensures
        final(state).registry@ == after_stop(old(state).registry@, run_id@),
        final(state).registry.admitted() == old(state).registry.admitted(),
        old(state).registry@.contains_key(run_id@) ==> {
            &&& stopped matches Ok(stop)
            &&& stop.message@ == "Test "@ + run_id@ + " stopped"@
            &&& stop.kill == old(state).registry@[run_id@].pid()
        },
        !old(state).registry@.contains_key(run_id@) ==> {
            &&& stopped matches Ok(stop)
            &&& stop.message@ == "Test "@ + run_id@ + " not running"@
            &&& stop.kill is None
            &&& final(state).registry@ == old(state).registry@
        },
{
    match state.registry.stop(run_id) {
        StopOutcome::Stopped { kill } => {
            let mut message = join("Test ", run_id);
            message.append(" stopped");
            Ok(TestStop { message, kill })
        },
        StopOutcome::NotRunning => {
            let mut message = join("Test ", run_id);
            message.append(" not running");
            Ok(TestStop { message, kill: None })
        },
    }
}

} // verus!
