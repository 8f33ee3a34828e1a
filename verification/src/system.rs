//! Versions of the tools that the application drives.

use crate::patterns::{capture, capture_of, regex_group, Capture, CaptureModel};
use crate::text::text_of;
use crate::text::{
    contains, found, lines, lines_of, owned, same_text, texts, trim, trimmed,
};
use vstd::prelude::*;
use vstd::string::*;

verus! {

#[derive(Clone, Debug, PartialEq, Eq)]
pub struct SystemVersions {
    pub adb: String,
    pub appium: String,
    pub uiautomator2: String,
    pub scrcpy: String,
    pub robot: String,
    pub python: String,
    pub node: String,
}

/// What a command that ran to its end gave.
#[derive(Clone, Debug, PartialEq, Eq)]
pub struct CommandOutput {
    pub success: bool,
    pub stdout: String,
    pub stderr: String,
}

pub struct OutputModel {
    pub success: bool,
    pub stdout: Seq<char>,
    pub stderr: Seq<char>,
}

impl View for CommandOutput {
    type V = OutputModel;

    open spec fn view(&self) -> OutputModel {
        OutputModel { success: self.success, stdout: self.stdout@, stderr: self.stderr@ }
    }
}

pub open spec fn output_of(output: Option<CommandOutput>) -> Option<OutputModel> {
    match output {
        Some(output) => Some(output@),
        None => None,
    }
}

/// What stands for a version that could not be found.
pub open spec fn not_found() -> Seq<char> {
    "Not Found"@
}

/// The version that a search in the output of a tool gives: what the
/// search found, and the output as it is where it found nothing.
pub open spec fn version_found(input: Seq<char>, found: CaptureModel) -> Seq<char> {
    match found.text() {
        Some(version) => version,
        None => input,
    }
}

/// The version in the output of a tool, by a pattern whose first group
/// is the version. Where the pattern does not apply, the output stands
/// as it is; an output that says that nothing was found is not searched.
pub open spec fn version_in(input: Seq<char>, pattern: Seq<char>) -> Seq<char> {
    if input == not_found() {
        input
    } else {
        version_found(input, capture_of(regex_group(pattern, input, 1)))
    }
}

/// Says what version a search in the output of a tool gave.
pub fn version_from(input: &str, found: Capture) -> (version: String)
    ensures
        version@ == version_found(input@, found@),
{
    match found {
        Capture::Text(version) => version,
        _ => owned(input),
    }
}

pub fn extract_version(input: &str, pattern: &str) -> (version: String)
    ensures
        version@ == version_in(input@, pattern@),
{
    if same_text(input, "Not Found") {
        return owned(input);
    }
    version_from(input, capture(pattern, input, 1))
}

/// The first line of a text, without white space around the text and
/// around the line; nothing for a text of white space only.
pub open spec fn first_line(text: Seq<char>) -> Option<Seq<char>> {
    if trimmed(text).len() == 0 {
        None
    } else if lines_of(trimmed(text)).len() > 0 {
        Some(trimmed(lines_of(trimmed(text))[0]))
    } else {
        Some(trimmed("Unknown"@))
    }
}

/// What a tool says of its version: the first line of its output, or
/// else of its error output. In strict reading a tool that failed says
/// nothing.
pub open spec fn reported(output: OutputModel, strict: bool) -> Option<Seq<char>> {
    if strict && !output.success {
        None
    } else if first_line(output.stdout) is Some {
        first_line(output.stdout)
    } else {
        first_line(output.stderr)
    }
}

/// The version line of a tool. `direct` is what running it gave, and is
/// absent where it could not be run; only then `shell` counts, which is
/// what running it through the command shell gave.
pub open spec fn version_line(
    direct: Option<OutputModel>,
    shell: Option<OutputModel>,
    strict: bool,
) -> Seq<char> {
    let said = match direct {
        Some(output) => reported(output, strict),
        None => match shell {
            Some(output) => reported(output, strict),
            None => None,
        },
    };
    match said {
        Some(line) => line,
        None => not_found(),
    }
}

fn first_line_of(text: &str) -> (line: Option<String>)
    ensures
        text_of(line) == first_line(text@),
{
    let cut = trim(text);
    if cut.as_str().is_empty() {
        return None;
    }
    let all = lines(cut.as_str());
    if all.len() > 0 {
        Some(trim(all[0].as_str()))
    } else {
        Some(trim("Unknown"))
    }
}

fn report(output: &CommandOutput, strict: bool) -> (line: Option<String>)
    ensures
        text_of(line) == reported(output@, strict),
{
    if strict && !output.success {
        return None;
    }
    match first_line_of(output.stdout.as_str()) {
        Some(line) => Some(line),
        None => first_line_of(output.stderr.as_str()),
    }
}

pub fn get_version_internal(
    direct: &Option<CommandOutput>,
    shell: &Option<CommandOutput>,
    strict: bool,
) -> (line: String)
    ensures
        line@ == version_line(output_of(*direct), output_of(*shell), strict),
{
    let said = match direct {
        Some(output) => report(output, strict),
        None => match shell {
            Some(output) => report(output, strict),
            None => None,
        },
    };
    match said {
        Some(line) => line,
        None => owned("Not Found"),
    }
}

/// The version line in strict reading.
pub fn get_version(direct: &Option<CommandOutput>, shell: &Option<CommandOutput>) -> (line: String)
    ensures
        line@ == version_line(output_of(*direct), output_of(*shell), true),
{
    get_version_internal(direct, shell, true)
}

pub open spec fn unless_not_found(line: Seq<char>) -> Option<Seq<char>> {
    if line == not_found() {
        None
    } else {
        Some(line)
    }
}

/// The version line in strict reading, if there is one.
pub fn try_get_version(direct: &Option<CommandOutput>, shell: &Option<CommandOutput>) -> (line:
    Option<String>)
    ensures
        text_of(line) == unless_not_found(
            version_line(output_of(*direct), output_of(*shell), true),
        ),
{
    let line = get_version_internal(direct, shell, true);
    if same_text(line.as_str(), "Not Found") {
        None
    } else {
        Some(line)
    }
}

/// The version line of a tool whose version query may fail, if there is
/// one.
pub fn try_get_version_loose(direct: &Option<CommandOutput>, shell: &Option<CommandOutput>) -> (line:
    Option<String>)
    ensures
        text_of(line) == unless_not_found(
            version_line(output_of(*direct), output_of(*shell), false),
        ),
{
    let line = get_version_internal(direct, shell, false);
    if same_text(line.as_str(), "Not Found") {
        None
    } else {
        Some(line)
    }
}

/// What a JSON text holds under `inner` in the object under `outer` of
/// its top object.
pub enum MemberModel {
    /// The text is no JSON.
    NotJson,
    /// There is nothing under `outer`.
    NoOuter,
    /// There is nothing under `inner`.
    NoInner,
    /// What is under `inner` is no text.
    NotText,
    Text(Seq<char>),
}

#[derive(Clone, Debug, PartialEq, Eq)]
pub enum Member {
    NotJson,
    NoOuter,
    NoInner,
    NotText,
    Text(String),
}

impl View for Member {
    type V = MemberModel;

    open spec fn view(&self) -> MemberModel {
        match self {
            Member::NotJson => MemberModel::NotJson,
            Member::NoOuter => MemberModel::NoOuter,
            Member::NoInner => MemberModel::NoInner,
            Member::NotText => MemberModel::NotText,
            Member::Text(text) => MemberModel::Text(text@),
        }
    }
}

/// What the JSON text `json` holds under `inner` in what it holds under
/// `outer`.
pub uninterp spec fn json_member(json: Seq<char>, outer: Seq<char>, inner: Seq<char>) -> MemberModel;

/// `serde_json::from_str` reads the text as a JSON value, or fails
/// where it is none; `Value::get` with a text key gives the member of
/// an object under that key, and nothing for a missing key or a value
/// that is no object; `Value::as_str` gives the text of a JSON string
/// and nothing for any other value. The outcome depends on the three
/// texts alone.
#[verifier::external_body]
pub(crate) fn read_member(json: &str, outer: &str, inner: &str) -> (member: Member)
    ensures
        member@ == json_member(json@, outer@, inner@),
{
    match serde_json::from_str::<serde_json::Value>(json) {
        Ok(value) => match value.get(outer) {
            Some(entry) => match entry.get(inner) {
                Some(found) => match found.as_str() {
                    Some(text) => Member::Text(text.to_string()),
                    None => Member::NotText,
                },
                None => Member::NoInner,
            },
            None => Member::NoOuter,
        },
        Err(_) => Member::NotJson,
    }
}

/// The first of `list_lines` that names the driver, without white space
/// around it.
pub open spec fn driver_line(list_lines: Seq<Seq<char>>) -> Option<Seq<char>>
    decreases list_lines.len(),
{
    if list_lines.len() == 0 {
        None
    } else if found(list_lines[0], "uiautomator2"@) is Some {
        Some(trimmed(list_lines[0]))
    } else {
        driver_line(list_lines.drop_first())
    }
}

/// What a list of drivers that is no JSON says of the driver.
pub open spec fn driver_in_text(list: Seq<char>) -> Seq<char> {
    if found(list, "uiautomator2"@) is Some {
        match driver_line(lines_of(list)) {
            Some(line) => line,
            None => "Installed"@,
        }
    } else {
        not_found()
    }
}

/// What the list of installed drivers says of the driver, given what
/// the list holds as the driver's version.
pub open spec fn driver_version(member: MemberModel, list: Seq<char>) -> Seq<char> {
    match member {
        MemberModel::Text(version) => version,
        MemberModel::NotText => "Installed"@,
        MemberModel::NoInner => "Installed"@,
        MemberModel::NoOuter => not_found(),
        MemberModel::NotJson => driver_in_text(list),
    }
}

fn find_driver_line(list: &str) -> (line: Option<String>)
    ensures
        text_of(line) == driver_line(lines_of(list@)),
{
    let all = lines(list);
    let mut i: usize = 0;
    assert(texts(all@).skip(0) =~= texts(all@));
    while i < all.len()
        invariant
            i <= all@.len(),
            texts(all@) == lines_of(list@),
            driver_line(lines_of(list@)) == driver_line(texts(all@).skip(i as int)),
        decreases all@.len() - i,
    {
        assert(texts(all@).skip(i as int).drop_first() =~= texts(all@).skip(i + 1));
        if contains(all[i].as_str(), "uiautomator2") {
            return Some(trim(all[i].as_str()));
        }
        i = i + 1;
    }
    None
}

/// Says what a list of installed drivers tells of the driver, once the
/// list was searched as JSON.
pub fn driver_from(member: Member, list: &str) -> (version: String)
    ensures
        version@ == driver_version(member@, list@),
{
    match member {
        Member::Text(version) => version,
        Member::NotText => owned("Installed"),
        Member::NoInner => owned("Installed"),
        Member::NoOuter => owned("Not Found"),
        Member::NotJson => {
            if contains(list, "uiautomator2") {
                match find_driver_line(list) {
                    Some(line) => line,
                    None => owned("Installed"),
                }
            } else {
                owned("Not Found")
            }
        },
    }
}

/// What the driver query says of the driver. `output` is absent where
/// the query could not be run.
pub open spec fn uiautomator2_text(output: Option<OutputModel>) -> Seq<char> {
    match output {
        Some(output) => if output.success {
            driver_version(json_member(output.stdout, "uiautomator2"@, "version"@), output.stdout)
        } else {
            not_found()
        },
        None => not_found(),
    }
}

pub fn check_uiautomator2(output: &Option<CommandOutput>) -> (version: String)
    ensures
        version@ == uiautomator2_text(output_of(*output)),
{
    match output {
        Some(output) => {
            if output.success {
                let member = read_member(output.stdout.as_str(), "uiautomator2", "version");
                driver_from(member, output.stdout.as_str())
            } else {
                owned("Not Found")
            }
        },
        None => owned("Not Found"),
    }
}

/// The arguments of the driver query.
pub fn driver_list_args() -> (args: Vec<String>)
    ensures
        texts(args@) == seq!["driver"@, "list"@, "--installed"@, "--json"@],
{
    let mut args: Vec<String> = Vec::new();
    args.push(owned("driver"));
    args.push(owned("list"));
    args.push(owned("--installed"));
    args.push(owned("--json"));
    args
}

/// The version lines of the tools, as the queries gave them.
#[derive(Clone, Debug, PartialEq, Eq)]
pub struct RawVersions {
    pub adb: String,
    pub node: String,
    pub python: String,
    pub scrcpy: String,
    /// Of the first automation server command that answered.
    pub appium: Option<String>,
    /// Of the first test runner command that answered.
    pub robot: Option<String>,
    /// What the driver query gave; it is asked only where an automation
    /// server answered.
    pub uiautomator2: String,
}

pub open spec fn text_or_not_found(value: Option<Seq<char>>) -> Seq<char> {
    match value {
        Some(text) => text,
        None => not_found(),
    }
}

/// Whether the driver is asked for: only where the automation server
/// was found.
pub open spec fn driver_asked(appium: Option<Seq<char>>) -> bool {
    text_or_not_found(appium) != not_found()
}

/// The versions of the tools, from their version lines.
pub fn get_system_versions(raw: RawVersions) -> (versions: SystemVersions)
    ensures
        versions.adb@ == version_in(raw.adb@, r"Android Debug Bridge version ([\d\.]+)"@),
        versions.node@ == raw.node@,
        versions.python@ == version_in(raw.python@, r"Python ([\d\.]+)"@),
        versions.scrcpy@ == version_in(raw.scrcpy@, r"scrcpy ([\d\.]+)"@),
        versions.appium@ == text_or_not_found(text_of(raw.appium)),
        versions.robot@ == version_in(
            text_or_not_found(text_of(raw.robot)),
            r"Robot Framework ([\d\.]+)"@,
        ),
        versions.uiautomator2@ == if driver_asked(text_of(raw.appium)) {
            raw.uiautomator2@
        } else {
            not_found()
        },
{
    let adb = extract_version(raw.adb.as_str(), r"Android Debug Bridge version ([\d\.]+)");
    let python = extract_version(raw.python.as_str(), r"Python ([\d\.]+)");
    let scrcpy = extract_version(raw.scrcpy.as_str(), r"scrcpy ([\d\.]+)");
    let appium = match raw.appium {
        Some(line) => line,
        None => owned("Not Found"),
    };
    let robot_raw = match raw.robot {
        Some(line) => line,
        None => owned("Not Found"),
    };
    let robot = extract_version(robot_raw.as_str(), r"Robot Framework ([\d\.]+)");
    let uiautomator2 = if same_text(appium.as_str(), "Not Found") {
        owned("Not Found")
    } else {
        raw.uiautomator2
    };
    SystemVersions { adb, appium, uiautomator2, scrcpy, robot, python, node: raw.node }
}

} // verus!
