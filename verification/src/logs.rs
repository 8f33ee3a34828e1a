//! The history of test runs, read from their result files.

use crate::number::{parse_i32, signed_decimal, signed_digits, signed_value};
use crate::order::{is_arrangement, is_stably_sorted, sort_order};
use crate::patterns::{capture, capture_of, regex_group, Capture};
use crate::text::{
    chars_of, copy_text, ends_with, owned, pieces, same_text, split, starts_with, tail, text_of,
    texts,
};
use vstd::prelude::*;
use vstd::string::*;

verus! {

#[derive(Clone, Debug, PartialEq, Eq)]
pub struct TestLog {
    pub path: String,
    pub suite_name: String,
    pub status: String,
    pub device_udid: Option<String>,
    pub device_model: Option<String>,
    pub android_version: Option<String>,
    pub timestamp: String,
    pub duration: String,
    pub xml_path: String,
    pub log_html_path: String,
}

pub struct TestLogModel {
    pub path: Seq<char>,
    pub suite_name: Seq<char>,
    pub status: Seq<char>,
    pub device_udid: Option<Seq<char>>,
    pub device_model: Option<Seq<char>>,
    pub android_version: Option<Seq<char>>,
    pub timestamp: Seq<char>,
    pub duration: Seq<char>,
    pub xml_path: Seq<char>,
    pub log_html_path: Seq<char>,
}

impl View for TestLog {
    type V = TestLogModel;

    open spec fn view(&self) -> TestLogModel {
        TestLogModel {
            path: self.path@,
            suite_name: self.suite_name@,
            status: self.status@,
            device_udid: text_of(self.device_udid),
            device_model: text_of(self.device_model),
            android_version: text_of(self.android_version),
            timestamp: self.timestamp@,
            duration: self.duration@,
            xml_path: self.xml_path@,
            log_html_path: self.log_html_path@,
        }
    }
}

pub open spec fn log_models(list: Seq<TestLog>) -> Seq<TestLogModel> {
    Seq::new(list.len(), |i: int| list[i]@)
}

/// The pattern of a text value in a metadata file, for each of the four
/// keys that are read from it.
pub open spec fn udid_pattern() -> Seq<char> {
    r#""device_udid"\s*:\s*"([^"]+)""#@
}

pub open spec fn timestamp_pattern() -> Seq<char> {
    r#""timestamp"\s*:\s*"([^"]+)""#@
}

pub open spec fn model_pattern() -> Seq<char> {
    r#""device_model"\s*:\s*"([^"]+)""#@
}

pub open spec fn version_pattern() -> Seq<char> {
    r#""android_version"\s*:\s*"([^"]+)""#@
}

/// The pattern of the suite's name in a result file.
pub open spec fn suite_pattern() -> Seq<char> {
    r#"<suite.*name="([^"]+)""#@
}

/// The pattern of the totals of all tests in a result file: passed first,
/// failed second.
pub open spec fn totals_pattern() -> Seq<char> {
    r#"<stat pass="(\d+)" fail="(\d+)".*>All Tests</stat>"#@
}

/// The pattern of the time at which a result file was written.
pub open spec fn generated_pattern() -> Seq<char> {
    r#"generated="([^"]+)""#@
}

/// What the searches in a result file and its metadata gave.
pub struct LogFields {
    pub device_udid: Option<String>,
    pub device_model: Option<String>,
    pub android_version: Option<String>,
    /// The time in the metadata.
    pub recorded: Option<String>,
    pub suite: Option<String>,
    pub passed: Option<String>,
    pub failed: Option<String>,
    /// The time in the result file.
    pub generated: Option<String>,
}

pub struct LogFieldsModel {
    pub device_udid: Option<Seq<char>>,
    pub device_model: Option<Seq<char>>,
    pub android_version: Option<Seq<char>>,
    pub recorded: Option<Seq<char>>,
    pub suite: Option<Seq<char>>,
    pub passed: Option<Seq<char>>,
    pub failed: Option<Seq<char>>,
    pub generated: Option<Seq<char>>,
}

impl View for LogFields {
    type V = LogFieldsModel;

    open spec fn view(&self) -> LogFieldsModel {
        LogFieldsModel {
            device_udid: text_of(self.device_udid),
            device_model: text_of(self.device_model),
            android_version: text_of(self.android_version),
            recorded: text_of(self.recorded),
            suite: text_of(self.suite),
            passed: text_of(self.passed),
            failed: text_of(self.failed),
            generated: text_of(self.generated),
        }
    }
}

/// Whether the name of a folder tells of a device: it begins with `A`
/// and has three parts at least between underscores: the version after
/// the `A`, the model, and the device.
pub open spec fn names_device(folder: Option<Seq<char>>) -> bool {
    &&& folder is Some
    &&& folder->0.len() > 0
    &&& folder->0[0] == 'A'
    &&& pieces(folder->0, '_').len() >= 3
}

pub open spec fn first_of(a: Option<Seq<char>>, b: Option<Seq<char>>) -> Option<Seq<char>> {
    if a is Some {
        a
    } else {
        b
    }
}

/// The number that a total is counted as: what its text says, and 0
/// where there is none or it is no number.
pub open spec fn count_of(text: Option<Seq<char>>) -> int {
    match text {
        Some(text) => match signed_value(text, 0x8000_0000, 0x7fff_ffff) {
            Some(n) => n,
            None => 0,
        },
        None => 0,
    }
}

pub open spec fn text_or(value: Option<Seq<char>>, fallback: Seq<char>) -> Seq<char> {
    match value {
        Some(text) => text,
        None => fallback,
    }
}

/// The entry of one run, from what was found in its files. What the
/// metadata does not say of the device is taken from the name of the
/// folder above the run's.
pub open spec fn log_entry(
    fields: LogFieldsModel,
    parent_folder: Option<Seq<char>>,
    folder: Seq<char>,
    xml_path: Seq<char>,
    log_html_path: Seq<char>,
) -> TestLogModel {
    let parts = pieces(parent_folder->0, '_');
    let named = names_device(parent_folder);
    TestLogModel {
        path: folder,
        suite_name: text_or(fields.suite, "Unknown"@),
        status: if count_of(fields.failed) > 0 {
            "FAIL"@
        } else {
            "PASS"@
        },
        device_udid: if named {
            first_of(fields.device_udid, Some(parts[2]))
        } else {
            fields.device_udid
        },
        device_model: if named {
            first_of(fields.device_model, Some(parts[1]))
        } else {
            fields.device_model
        },
        android_version: if named {
            first_of(fields.android_version, Some(parts[0].skip(1)))
        } else {
            fields.android_version
        },
        timestamp: text_or(first_of(fields.recorded, fields.generated), Seq::empty()),
        duration: signed_digits(count_of(fields.passed)) + " P / "@ + signed_digits(
            count_of(fields.failed),
        ) + " F"@,
        xml_path,
        log_html_path,
    }
}

fn count(text: &Option<String>) -> (n: i32)
    ensures
        n == count_of(text_of(*text)),
{
    match text {
        Some(text) => match parse_i32(text.as_str()) {
            Some(n) => n,
            None => 0,
        },
        None => 0,
    }
}

/// Puts the entry of one run together.
pub fn assemble_log(
    fields: LogFields,
    parent_folder: Option<&str>,
    folder: &str,
    xml_path: &str,
    log_html_path: &str,
) -> (log: TestLog)
    ensures
        log@ == log_entry(
            fields@,
            match parent_folder {
                Some(name) => Some(name@),
                None => None,
            },
            folder@,
            xml_path@,
            log_html_path@,
        ),
{
    let mut device_udid = fields.device_udid;
    let mut device_model = fields.device_model;
    let mut android_version = fields.android_version;
    match parent_folder {
        Some(name) => {
            let chars = chars_of(name);
            if chars.len() > 0 && chars[0] == 'A' {
                let mut parts = split(name, '_');
                if parts.len() >= 3 {
                    if android_version.is_none() {
                        android_version = Some(tail(parts[0].as_str(), 1));
                        assert(parts@[0]@.len() >= 1) by {
                            lemma_first_piece_keeps_start(name@, '_');
                        }
                    }
                    if device_model.is_none() {
                        device_model = Some(parts[1].clone());
                    }
                    if device_udid.is_none() {
                        device_udid = Some(parts[2].clone());
                    }
                }
            }
        },
        None => {},
    }
    let passed = count(&fields.passed);
    let failed = count(&fields.failed);
    let suite_name = match fields.suite {
        Some(name) => name,
        None => owned("Unknown"),
    };
    let status = if failed > 0 {
        owned("FAIL")
    } else {
        owned("PASS")
    };
    let timestamp = match fields.recorded {
        Some(time) => time,
        None => match fields.generated {
            Some(time) => time,
            None => String::new(),
        },
    };
    let mut duration = signed_decimal(passed);
    duration.append(" P / ");
    let failed_text = signed_decimal(failed);
    duration.append(failed_text.as_str());
    duration.append(" F");
    TestLog {
        path: owned(folder),
        suite_name,
        status,
        device_udid,
        device_model,
        android_version,
        timestamp,
        duration,
        xml_path: owned(xml_path),
        log_html_path: owned(log_html_path),
    }
}

/// The first piece of a text that does not begin with the separator
/// begins as the text does.
proof fn lemma_first_piece_keeps_start(s: Seq<char>, separator: char)
    requires
        s.len() > 0,
        s[0] != separator,
    ensures
        pieces(s, separator)[0].len() >= 1,
{
    lemma_first_piece_extends(s.drop_first(), separator, seq![s[0]]);
}

proof fn lemma_first_piece_extends(s: Seq<char>, separator: char, current: Seq<char>)
    ensures
        crate::text::pieces_from(s, separator, current).len() >= 1,
        crate::text::pieces_from(s, separator, current)[0].len() >= current.len(),
    decreases s.len(),
{
    if s.len() > 0 && s[0] != separator {
        lemma_first_piece_extends(s.drop_first(), separator, current.push(s[0]));
    }
}

/// What a search in the metadata gives: a pattern that is refused gives
/// nothing, as one that does not match.
pub open spec fn metadata_value(metadata: Option<Seq<char>>, pattern: Seq<char>) -> Option<
    Seq<char>,
> {
    match metadata {
        Some(text) => capture_of(regex_group(pattern, text, 1)).text(),
        None => None,
    }
}

/// What the searches in a result file and its metadata give.
pub open spec fn fields_of(content: Seq<char>, metadata: Option<Seq<char>>) -> LogFieldsModel {
    LogFieldsModel {
        device_udid: metadata_value(metadata, udid_pattern()),
        device_model: metadata_value(metadata, model_pattern()),
        android_version: metadata_value(metadata, version_pattern()),
        recorded: metadata_value(metadata, timestamp_pattern()),
        suite: capture_of(regex_group(suite_pattern(), content, 1)).text(),
        passed: capture_of(regex_group(totals_pattern(), content, 1)).text(),
        failed: capture_of(regex_group(totals_pattern(), content, 2)).text(),
        generated: capture_of(regex_group(generated_pattern(), content, 1)).text(),
    }
}

/// Whether a search that the entry cannot do without was refused. The
/// time of the result file is searched for only where the metadata has
/// none.
pub open spec fn search_refused(content: Seq<char>, metadata: Option<Seq<char>>) -> bool {
    ||| regex_group(suite_pattern(), content, 1) is None
    ||| regex_group(totals_pattern(), content, 1) is None
    ||| regex_group(totals_pattern(), content, 2) is None
    ||| metadata_value(metadata, timestamp_pattern()) is None && regex_group(
        generated_pattern(),
        content,
        1,
    ) is None
}

fn metadata_field(metadata: Option<&str>, pattern: &str) -> (value: Option<String>)
    ensures
        text_of(value) == metadata_value(
            match metadata {
                Some(text) => Some(text@),
                None => None,
            },
            pattern@,
        ),
{
    match metadata {
        Some(text) => match capture(pattern, text, 1) {
            Capture::Text(value) => Some(value),
            _ => None,
        },
        None => None,
    }
}

/// Reads the entry of one run from the text of its result file and, if
/// there is one, of its metadata file.
pub fn parse_log_entry(
    content: &str,
    metadata: Option<&str>,
    parent_folder: Option<&str>,
    folder: &str,
    xml_path: &str,
    log_html_path: &str,
) -> (log: Option<TestLog>)
    ensures
        ({
            let meta = match metadata {
                Some(text) => Some(text@),
                None => None,
            };
            let above = match parent_folder {
                Some(name) => Some(name@),
                None => None,
            };
            match log {
                Some(log) => !search_refused(content@, meta) && log@ == log_entry(
                    fields_of(content@, meta),
                    above,
                    folder@,
                    xml_path@,
                    log_html_path@,
                ),
                None => search_refused(content@, meta),
            }
        }),
{
    let device_udid = metadata_field(metadata, r#""device_udid"\s*:\s*"([^"]+)""#);
    let recorded = metadata_field(metadata, r#""timestamp"\s*:\s*"([^"]+)""#);
    let device_model = metadata_field(metadata, r#""device_model"\s*:\s*"([^"]+)""#);
    let android_version = metadata_field(metadata, r#""android_version"\s*:\s*"([^"]+)""#);
    let suite = match capture(r#"<suite.*name="([^"]+)""#, content, 1) {
        Capture::Refused => {
            return None;
        },
        Capture::Missing => None,
        Capture::Text(name) => Some(name),
    };
    let passed = match capture(r#"<stat pass="(\d+)" fail="(\d+)".*>All Tests</stat>"#, content, 1) {
        Capture::Refused => {
            return None;
        },
        Capture::Missing => None,
        Capture::Text(text) => Some(text),
    };
    let failed = match capture(r#"<stat pass="(\d+)" fail="(\d+)".*>All Tests</stat>"#, content, 2) {
        Capture::Refused => {
            return None;
        },
        Capture::Missing => None,
        Capture::Text(text) => Some(text),
    };
    let generated = if recorded.is_some() {
        None
    } else {
        match capture(r#"generated="([^"]+)""#, content, 1) {
            Capture::Refused => {
                return None;
            },
            Capture::Missing => None,
            Capture::Text(text) => Some(text),
        }
    };
    let fields = LogFields {
        device_udid,
        device_model,
        android_version,
        recorded,
        suite,
        passed,
        failed,
        generated,
    };
    Some(assemble_log(fields, parent_folder, folder, xml_path, log_html_path))
}

/// The folders that are searched for results, in this order: the one
/// that was asked for, if it is named, then the two usual places.
pub open spec fn candidates(custom_path: Option<Seq<char>>) -> Seq<Seq<char>> {
    let usual = seq!["../test_results"@, "test_results"@];
    match custom_path {
        Some(path) => if path.len() > 0 {
            seq![path] + usual
        } else {
            usual
        },
        None => usual,
    }
}

pub fn candidate_dirs(custom_path: Option<&str>) -> (dirs: Vec<String>)
    ensures
        texts(dirs@) == candidates(
            match custom_path {
                Some(path) => Some(path@),
                None => None,
            },
        ),
{
    let mut dirs: Vec<String> = Vec::new();
    match custom_path {
        Some(path) => {
            if !path.is_empty() {
                dirs.push(owned(path));
            }
        },
        None => {},
    }
    dirs.push(owned("../test_results"));
    dirs.push(owned("test_results"));
    dirs
}

/// Whether a file is a result file, by its name.
pub fn is_result_file(name: &str) -> (result: bool)
    ensures
        result == ("output"@.is_prefix_of(name@) && ".xml"@.is_suffix_of(name@)),
{
    starts_with(name, "output") && ends_with(name, ".xml")
}

/// Notes that a folder is visited. Answers whether it is visited for
/// the first time, and only then takes note.
pub fn first_visit(seen: &mut Vec<String>, folder: &str) -> (first: bool)
    ensures
        first == !texts(old(seen)@).contains(folder@),
        first ==> texts(final(seen)@) == texts(old(seen)@).push(folder@),
        !first ==> final(seen)@ == old(seen)@,
{
    let mut i: usize = 0;
    while i < seen.len()
        invariant
            i <= seen@.len(),
            seen@ == old(seen)@,
            forall|k: int| 0 <= k < i ==> texts(seen@)[k] != folder@,
        decreases seen@.len() - i,
    {
        assert(texts(seen@)[i as int] == seen@[i as int]@);
        if same_text(seen[i].as_str(), folder) {
            return false;
        }
        i = i + 1;
    }
    seen.push(owned(folder));
    true
}

/// Whether the entry that was kept of a result file still holds: one
/// was kept, and the file was not changed after the keeping. Times are
/// counted from a common origin; a file whose time cannot be read is
/// read anew.
pub fn is_fresh(kept: bool, modified: Option<u64>, kept_at: u64) -> (fresh: bool)
    ensures
        fresh == (kept && modified is Some && modified->0 <= kept_at),
{
    match modified {
        Some(time) => kept && time <= kept_at,
        None => false,
    }
}

pub open spec fn timestamps_of(list: Seq<TestLogModel>) -> Seq<Seq<char>> {
    Seq::new(list.len(), |i: int| list[i].timestamp)
}

/// The history: the entries that were found, the newest first. Entries
/// of the same time keep the order in which they were found.
pub fn get_test_tests_history(found: &Vec<TestLog>) -> (history: Vec<TestLog>)
    ensures
        exists|order: Seq<usize>|
            {
                &&& is_arrangement(order, found@.len() as int)
                &&& is_stably_sorted(order, timestamps_of(log_models(found@)), true)
                &&& log_models(history@) == Seq::new(
                    found@.len(),
                    |k: int| log_models(found@)[order[k] as int],
                )
            },
{
    let mut keys: Vec<Vec<char>> = Vec::new();
    let mut i: usize = 0;
    while i < found.len()
        invariant
            i <= found@.len(),
            keys@.len() == i,
            forall|k: int| 0 <= k < i ==> (#[trigger] keys@[k])@ == found@[k].timestamp@,
        decreases found@.len() - i,
    {
        keys.push(chars_of(found[i].timestamp.as_str()));
        i = i + 1;
    }
    assert(crate::order::keys_of(keys@) =~= timestamps_of(log_models(found@)));
    let order = sort_order(&keys, true);
    let mut history: Vec<TestLog> = Vec::new();
    let mut k: usize = 0;
    while k < order.len()
        invariant
            k <= order@.len() == found@.len(),
            is_arrangement(order@, found@.len() as int),
            history@.len() == k,
            forall|j: int| 0 <= j < k ==> (#[trigger] history@[j])@ == found@[order@[j] as int]@,
        decreases order@.len() - k,
    {
        let item = &found[order[k]];
        history.push(
            TestLog {
                path: item.path.clone(),
                suite_name: item.suite_name.clone(),
                status: item.status.clone(),
                device_udid: copy_text(&item.device_udid),
                device_model: copy_text(&item.device_model),
                android_version: copy_text(&item.android_version),
                timestamp: item.timestamp.clone(),
                duration: item.duration.clone(),
                xml_path: item.xml_path.clone(),
                log_html_path: item.log_html_path.clone(),
            },
        );
        k = k + 1;
    }
    history
}

} // verus!
