//! What the supervision logic keeps of one spawned process: its id and which
//! of its output pipes are still to be handed to a relay.

use crate::number::{decimal, decimal_digits};
use crate::text::texts;
use vstd::prelude::*;
use vstd::string::*;

verus! {

/// Outcome of one non-blocking liveness query.
#[derive(Clone, Copy, Debug, PartialEq, Eq, Structural)]
pub enum PollStatus {
    Running,
    Exited(i32),
    Error,
}

impl PollStatus {
    pub open spec fn is_alive(self) -> bool {
        self == PollStatus::Running
    }

    pub fn alive(&self) -> (b: bool)
        ensures
            b == self.is_alive(),
    {
        match self {
            PollStatus::Running => true,
            _ => false,
        }
    }
}

/// One of the two captured output streams of a process.
#[derive(Clone, Copy, Debug, PartialEq, Eq, Structural)]
pub enum Stream {
    Stdout,
    Stderr,
}

/// A spawned process as its supervisor holds it.
#[derive(Clone, Copy, Debug, PartialEq, Eq, Structural)]
pub struct ProcessHandle {
    pub pid: u32,
    pub stdout_taken: bool,
    pub stderr_taken: bool,
}

impl ProcessHandle {
    pub open spec fn fresh(pid: u32) -> ProcessHandle {
        ProcessHandle { pid, stdout_taken: false, stderr_taken: false }
    }

    pub open spec fn taken(self, stream: Stream) -> bool {
        match stream {
            Stream::Stdout => self.stdout_taken,
            Stream::Stderr => self.stderr_taken,
        }
    }

    pub open spec fn after_take(self, stream: Stream) -> ProcessHandle {
        match stream {
            Stream::Stdout => ProcessHandle { stdout_taken: true, ..self },
            Stream::Stderr => ProcessHandle { stderr_taken: true, ..self },
        }
    }

    /// The handle of a process that was just spawned with both streams
    /// captured and neither handed out.
    pub fn new(pid: u32) -> (handle: ProcessHandle)
        ensures
            handle == ProcessHandle::fresh(pid),
    {
        ProcessHandle { pid, stdout_taken: false, stderr_taken: false }
    }

    pub fn pid(&self) -> (pid: u32)
        ensures
            pid == self.pid,
    {
        self.pid
    }

    /// Hands a stream to a relay. Grants it the first time only, so that no
    /// stream is ever read by two relays.
    pub fn take(&mut self, stream: Stream) -> (granted: bool)
        ensures
            granted == !old(self).taken(stream),
            *final(self) == old(self).after_take(stream),
    {
        match stream {
            Stream::Stdout => {
                let granted = !self.stdout_taken;
                self.stdout_taken = true;
                granted
            },
            Stream::Stderr => {
                let granted = !self.stderr_taken;
                self.stderr_taken = true;
                granted
            },
        }
    }

    pub fn take_stdout(&mut self) -> (granted: bool)
        ensures
            granted == !old(self).stdout_taken,
            *final(self) == old(self).after_take(Stream::Stdout),
    {
        self.take(Stream::Stdout)
    }

    pub fn take_stderr(&mut self) -> (granted: bool)
        ensures
            granted == !old(self).stderr_taken,
            *final(self) == old(self).after_take(Stream::Stderr),
    {
        self.take(Stream::Stderr)
    }
}

/// A stream is granted at most once: whatever was done before, a second
/// take of the same stream is refused and changes nothing.
pub proof fn lemma_take_is_once(handle: ProcessHandle, stream: Stream)
    ensures
        handle.after_take(stream).taken(stream),
        handle.after_take(stream).after_take(stream) == handle.after_take(stream),
        handle.after_take(stream).pid == handle.pid,
{
}

/// The arguments of the Windows command that ends the process `pid` by
/// force, with everything it has spawned if `tree` is set. A launcher
/// that only wraps the real worker is ended with its worker that way.
pub open spec fn taskkill_command(pid: u32, tree: bool) -> Seq<Seq<char>> {
    if tree {
        seq!["/F"@, "/T"@, "/PID"@, decimal_digits(pid as nat)]
    } else {
        seq!["/F"@, "/PID"@, decimal_digits(pid as nat)]
    }
}

pub fn taskkill_args(pid: u32, tree: bool) -> (args: Vec<String>)
    ensures
        texts(args@) == taskkill_command(pid, tree),
{
    let mut args: Vec<String> = Vec::new();
    args.push(String::from_str("/F"));
    if tree {
        args.push(String::from_str("/T"));
    }
    args.push(String::from_str("/PID"));
    args.push(decimal(pid as u64));
    args
}

/// The arguments of the Unix command that ends what the process `pid`
/// has spawned: the processes whose parent it is.
pub fn kill_children_args(pid: u32) -> (args: Vec<String>)
    ensures
        texts(args@) == seq!["-KILL"@, "-P"@, decimal_digits(pid as nat)],
{
    let mut args: Vec<String> = Vec::new();
    args.push(String::from_str("-KILL"));
    args.push(String::from_str("-P"));
    args.push(decimal(pid as u64));
    args
}

/// The arguments of the Unix command that asks the process `pid` to end.
pub fn kill_args(pid: u32) -> (args: Vec<String>)
    ensures
        texts(args@) == seq![decimal_digits(pid as nat)],
{
    let mut args: Vec<String> = Vec::new();
    args.push(decimal(pid as u64));
    args
}

} // verus!
