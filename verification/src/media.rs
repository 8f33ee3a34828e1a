//! Screenshots, screen recordings and the screen mirror.

use crate::text::{join, owned, split_whitespace, texts, words};
use vstd::prelude::*;
use vstd::string::*;

verus! {

/// Where a device keeps a recording until it is fetched.
pub open spec fn recording_path() -> Seq<char> {
    "/sdcard/robot_runner_rec.mp4"@
}

/// Seconds that a recording is given to be completed before it is
/// fetched.
pub const FINALIZE_SECS: u64 = 2;

/// The arguments that start a recording on a device.
pub fn start_screen_recording(device: &str) -> (args: Vec<String>)
    ensures
        texts(args@) == seq![
            "-s"@,
            device@,
            "shell"@,
            "screenrecord"@,
            "--verbose"@,
            recording_path(),
        ],
{
    let mut args: Vec<String> = Vec::new();
    args.push(owned("-s"));
    args.push(owned(device));
    args.push(owned("shell"));
    args.push(owned("screenrecord"));
    args.push(owned("--verbose"));
    args.push(owned("/sdcard/robot_runner_rec.mp4"));
    args
}

/// The arguments that interrupt the recording on a device, by the tool
/// named: `pkill` first, `killall` where that failed.
pub fn interrupt_recording_args(device: &str, tool: &str) -> (args: Vec<String>)
    ensures
        texts(args@) == seq!["-s"@, device@, "shell"@, tool@, "-2"@, "screenrecord"@],
{
    let mut args: Vec<String> = Vec::new();
    args.push(owned("-s"));
    args.push(owned(device));
    args.push(owned("shell"));
    args.push(owned(tool));
    args.push(owned("-2"));
    args.push(owned("screenrecord"));
    args
}

/// The arguments that fetch the recording of a device.
pub fn pull_recording_args(device: &str, local_path: &str) -> (args: Vec<String>)
    ensures
        texts(args@) == seq!["-s"@, device@, "pull"@, recording_path(), local_path@],
{
    let mut args: Vec<String> = Vec::new();
    args.push(owned("-s"));
    args.push(owned(device));
    args.push(owned("pull"));
    args.push(owned("/sdcard/robot_runner_rec.mp4"));
    args.push(owned(local_path));
    args
}

/// The arguments that remove the recording from a device.
pub fn remove_recording_args(device: &str) -> (args: Vec<String>)
    ensures
        texts(args@) == seq!["-s"@, device@, "shell"@, "rm"@, recording_path()],
{
    let mut args: Vec<String> = Vec::new();
    args.push(owned("-s"));
    args.push(owned(device));
    args.push(owned("shell"));
    args.push(owned("rm"));
    args.push(owned("/sdcard/robot_runner_rec.mp4"));
    args
}

/// The answer of fetching a recording: the place it was fetched to, or
/// the error.
pub fn stop_screen_recording(success: bool, local_path: &str, stderr: &str) -> (reply: Result<
    String,
    String,
>)
    ensures
        success ==> {
            &&& reply matches Ok(path)
            &&& path@ == local_path@
        },
        !success ==> {
            &&& reply matches Err(message)
            &&& message@ == "Failed to pull video: "@ + stderr@
        },
{
    if success {
        Ok(owned(local_path))
    } else {
        Err(join("Failed to pull video: ", stderr))
    }
}

/// The answer of taking a screenshot to a file: the file, or the error.
pub fn save_screenshot(success: bool, path: &str, stderr: &str) -> (reply: Result<String, String>)
    ensures
        success ==> {
            &&& reply matches Ok(saved)
            &&& saved@ == path@
        },
        !success ==> {
            &&& reply matches Err(message)
            &&& message@ == "ADB Screenshot failed: "@ + stderr@
        },
{
    if success {
        Ok(owned(path))
    } else {
        Err(join("ADB Screenshot failed: ", stderr))
    }
}

/// The command of the screen mirror for a device, with the words of
/// `extra` as further arguments. On Windows the mirror is started
/// through the command shell, which detaches it.
pub open spec fn scrcpy_command(device: Seq<char>, extra: Option<Seq<char>>, windows: bool) -> Seq<
    Seq<char>,
> {
    let launcher = if windows {
        seq!["/C"@, "start"@, "/B"@, ""@, "scrcpy"@]
    } else {
        Seq::empty()
    };
    let more = match extra {
        Some(extra) => words(extra),
        None => Seq::empty(),
    };
    launcher + seq!["-s"@, device] + more
}

/// The program that starts the screen mirror.
pub fn scrcpy_program(windows: bool) -> (program: String)
    ensures
        program@ == if windows {
            "cmd"@
        } else {
            "scrcpy"@
        },
{
    if windows {
        owned("cmd")
    } else {
        owned("scrcpy")
    }
}

pub fn open_scrcpy(device: &str, extra: Option<&str>, windows: bool) -> (args: Vec<String>)
    ensures
        texts(args@) == scrcpy_command(
            device@,
            match extra {
                Some(extra) => Some(extra@),
                None => None,
            },
            windows,
        ),
{
    let mut args: Vec<String> = Vec::new();
    if windows {
        args.push(owned("/C"));
        args.push(owned("start"));
        args.push(owned("/B"));
        args.push(owned(""));
        args.push(owned("scrcpy"));
    }
    args.push(owned("-s"));
    args.push(owned(device));
    match extra {
        Some(extra) => {
            let mut more = split_whitespace(extra);
            args.append(&mut more);
        },
        None => {},
    }
    args
}

} // verus!
