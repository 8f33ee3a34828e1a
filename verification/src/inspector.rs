//! The screen inspector: a screenshot and the tree of the user interface.

use crate::text::{join, owned, texts};
use vstd::prelude::*;
use vstd::string::*;

verus! {

/// The base64 text, in the standard alphabet with padding, of a run of
/// bytes.
pub uninterp spec fn base64_standard(bytes: Seq<u8>) -> Seq<char>;

/// Where the device writes the tree of its user interface.
pub open spec fn dump_path() -> Seq<char> {
    "/data/local/tmp/window_dump.xml"@
}

/// `base64::Engine::encode` on `base64::engine::general_purpose::STANDARD`
/// encodes the bytes as base64 text in the standard alphabet, padded;
/// the text depends on the bytes alone. It panics where the length of
/// the text would not fit the machine word, which the precondition
/// excludes.
#[verifier::external_body]
fn encode_standard(bytes: &Vec<u8>) -> (text: String)
    requires
        (bytes@.len() / 3 + 1) * 4 <= usize::MAX,
    ensures
        text@ == base64_standard(bytes@),
{
    base64::Engine::encode(&base64::engine::general_purpose::STANDARD, bytes)
}

/// The arguments that take a screenshot of a device in the PNG format.
pub fn screencap_args(device_id: &str) -> (args: Vec<String>)
    ensures
        texts(args@) == seq!["-s"@, device_id@, "exec-out"@, "screencap"@, "-p"@],
{
    let mut args: Vec<String> = Vec::new();
    args.push(owned("-s"));
    args.push(owned(device_id));
    args.push(owned("exec-out"));
    args.push(owned("screencap"));
    args.push(owned("-p"));
    args
}

/// The arguments that make a device write the tree of its user
/// interface.
pub fn dump_args(device_id: &str) -> (args: Vec<String>)
    ensures
        texts(args@) == seq!["-s"@, device_id@, "shell"@, "uiautomator"@, "dump"@, dump_path()],
{
    let mut args: Vec<String> = Vec::new();
    args.push(owned("-s"));
    args.push(owned(device_id));
    args.push(owned("shell"));
    args.push(owned("uiautomator"));
    args.push(owned("dump"));
    args.push(owned("/data/local/tmp/window_dump.xml"));
    args
}

/// The arguments that read the tree that a device wrote.
pub fn read_dump_args(device_id: &str) -> (args: Vec<String>)
    ensures
        texts(args@) == seq!["-s"@, device_id@, "shell"@, "cat"@, dump_path()],
{
    let mut args: Vec<String> = Vec::new();
    args.push(owned("-s"));
    args.push(owned(device_id));
    args.push(owned("shell"));
    args.push(owned("cat"));
    args.push(owned("/data/local/tmp/window_dump.xml"));
    args
}

/// Whether a picture of this many bytes can be written as base64 text
/// on this machine.
pub open spec fn encodable(len: nat) -> bool {
    (len / 3 + 1) * 4 <= usize::MAX
}

/// The screenshot as base64 text, from what the screenshot command
/// gave: the picture encoded where it succeeded, the error where not.
pub fn get_screenshot(success: bool, picture: &Vec<u8>, stderr: &str) -> (reply: Result<
    String,
    String,
>)
    requires
        encodable(picture@.len()),
    ensures
        success ==> {
            &&& reply matches Ok(text)
            &&& text@ == base64_standard(picture@)
        },
        !success ==> {
            &&& reply matches Err(message)
            &&& message@ == "ADB screencap failed: "@ + stderr@
        },
{
    if success {
        Ok(encode_standard(picture))
    } else {
        Err(join("ADB screencap failed: ", stderr))
    }
}

/// The screenshot as base64 text, or nothing where the picture is too
/// large to be encoded on this machine.
pub fn encode_screenshot(picture: &Vec<u8>) -> (text: Option<String>)
    ensures
        encodable(picture@.len()) ==> {
            &&& text matches Some(t)
            &&& t@ == base64_standard(picture@)
        },
        !encodable(picture@.len()) ==> text is None,
{
    if picture.len() / 3 < usize::MAX / 4 {
        match get_screenshot(true, picture, "") {
            Ok(text) => Some(text),
            Err(_) => None,
        }
    } else {
        None
    }
}

/// The answer of the dump command: nothing where it succeeded, the
/// error where it failed.
pub fn dump_reply(success: bool, stderr: &str) -> (reply: Result<(), String>)
    ensures
        success ==> reply is Ok,
        !success ==> {
            &&& reply matches Err(message)
            &&& message@ == "uiautomator dump failed: "@ + stderr@
        },
{
    if success {
        Ok(())
    } else {
        Err(join("uiautomator dump failed: ", stderr))
    }
}

/// The tree of the user interface, from what reading the dump gave.
pub fn get_xml_dump(success: bool, stdout: &str, stderr: &str) -> (reply: Result<String, String>)
    ensures
        success ==> {
            &&& reply matches Ok(text)
            &&& text@ == stdout@
        },
        !success ==> {
            &&& reply matches Err(message)
            &&& message@ == "Failed to read dump file: "@ + stderr@
        },
{
    if success {
        Ok(owned(stdout))
    } else {
        Err(join("Failed to read dump file: ", stderr))
    }
}

} // verus!
