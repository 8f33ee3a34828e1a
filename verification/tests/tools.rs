use base64::Engine;
use robot_runner::files::{hidden, list_directory, target_path, FileEntry};
use robot_runner::inspector::{
    dump_args, dump_reply, encode_screenshot, get_screenshot, get_xml_dump, read_dump_args,
    screencap_args,
};
use robot_runner::logs::{
    assemble_log, candidate_dirs, first_visit, get_test_tests_history, is_fresh, is_result_file,
    parse_log_entry, LogFields, TestLog,
};
use robot_runner::media::{
    interrupt_recording_args, open_scrcpy, pull_recording_args, remove_recording_args,
    save_screenshot, scrcpy_program, start_screen_recording, stop_screen_recording, FINALIZE_SECS,
};
use robot_runner::number::signed_decimal;
use robot_runner::order::{comes_before, sort_order};
use robot_runner::patterns::{capture, Capture};
use robot_runner::system::{
    check_uiautomator2, driver_from, driver_list_args, extract_version, get_system_versions,
    get_version, get_version_internal, try_get_version, try_get_version_loose, version_from,
    CommandOutput, Member, RawVersions, SystemVersions,
};

fn strings(items: &[&str]) -> Vec<String> {
    items.iter().map(|s| s.to_string()).collect()
}

fn some(s: &str) -> Option<String> {
    Some(s.to_string())
}

fn chars(s: &str) -> Vec<char> {
    s.chars().collect()
}

#[test]
fn text_order_matches_std() {
    let words = ["", "a", "b", "ab", "B", "é", "z", "aa", "a b", "\u{10000}", "\u{ffff}"];
    for x in words {
        for y in words {
            assert_eq!(comes_before(&chars(x), &chars(y), false), x < y, "{:?} {:?}", x, y);
            assert_eq!(comes_before(&chars(x), &chars(y), true), y < x, "{:?} {:?}", x, y);
        }
    }
}

#[test]
fn sort_order_is_stable() {
    let keys: Vec<Vec<char>> = ["b", "a", "c", "a", "b"].iter().map(|s| chars(s)).collect();
    assert_eq!(sort_order(&keys, false), vec![1, 3, 0, 4, 2]);
    assert_eq!(sort_order(&keys, true), vec![2, 0, 4, 1, 3]);
    assert_eq!(sort_order(&vec![], false), Vec::<usize>::new());
    assert_eq!(sort_order(&vec![chars("x")], true), vec![0]);
}

#[test]
fn signed_decimal_matches_std() {
    for n in [0, 1, -1, 42, -900, i32::MAX, i32::MIN] {
        assert_eq!(signed_decimal(n), n.to_string());
    }
}

#[test]
fn capture_finds_the_group() {
    assert_eq!(
        capture(r"Python ([\d\.]+)", "Python 3.11.4", 1),
        Capture::Text("3.11.4".to_string())
    );
    assert_eq!(capture(r"Python ([\d\.]+)", "Python 3.11.4", 0), Capture::Text("Python 3.11.4".to_string()));
    assert_eq!(capture(r"Python ([\d\.]+)", "Ruby 3", 1), Capture::Missing);
    assert_eq!(capture(r"a(b)?c", "ac", 1), Capture::Missing);
    assert_eq!(capture(r"a(b)?c", "ac", 7), Capture::Missing);
    assert_eq!(capture(r"foo(bar", "foobar", 1), Capture::Refused);
}

#[test]
fn extract_version_applies_the_pattern() {
    assert_eq!(
        extract_version("Android Debug Bridge version 1.0.41", r"Android Debug Bridge version ([\d\.]+)"),
        "1.0.41"
    );
    assert_eq!(extract_version("Not Found", r"(Not)"), "Not Found");
    assert_eq!(extract_version("v18.0.0", r"Python ([\d\.]+)"), "v18.0.0");
    assert_eq!(extract_version("anything", r"bad(pattern"), "anything");
    assert_eq!(version_from("scrcpy 2.4", Capture::Text("2.4".to_string())), "2.4");
    assert_eq!(version_from("scrcpy 2.4", Capture::Missing), "scrcpy 2.4");
    assert_eq!(version_from("scrcpy 2.4", Capture::Refused), "scrcpy 2.4");
}

fn output(success: bool, stdout: &str, stderr: &str) -> Option<CommandOutput> {
    Some(CommandOutput { success, stdout: stdout.to_string(), stderr: stderr.to_string() })
}

#[test]
fn version_line_is_the_first_line() {
    assert_eq!(get_version(&output(true, "\n  scrcpy 2.4 <url>\nmore\n", ""), &None), "scrcpy 2.4 <url>");
    assert_eq!(get_version(&output(true, "", "Python 2.7.18\n"), &None), "Python 2.7.18");
    assert_eq!(get_version(&output(true, " \n", " \n"), &None), "Not Found");
    assert_eq!(get_version(&output(false, "Robot Framework 7.0", ""), &None), "Not Found");
    assert_eq!(get_version(&None, &None), "Not Found");
    assert_eq!(get_version(&None, &output(true, "2.5.0\n", "")), "2.5.0");
    assert_eq!(get_version(&output(false, "x", ""), &output(true, "2.5.0\n", "")), "Not Found");
    assert_eq!(get_version_internal(&output(false, "Robot Framework 7.0 (Python 3)\n", ""), &None, false), "Robot Framework 7.0 (Python 3)");
}

#[test]
fn try_get_version_gives_none_for_not_found() {
    assert_eq!(try_get_version(&output(true, "2.5.0", ""), &None), some("2.5.0"));
    assert_eq!(try_get_version(&output(false, "2.5.0", ""), &None), None);
    assert_eq!(try_get_version(&None, &None), None);
    assert_eq!(try_get_version(&output(true, "Not Found", ""), &None), None);
    assert_eq!(try_get_version_loose(&output(false, "", "Robot Framework 6.1\n"), &None), some("Robot Framework 6.1"));
    assert_eq!(try_get_version_loose(&None, &None), None);
}

#[test]
fn driver_version_from_json() {
    assert_eq!(driver_list_args(), strings(&["driver", "list", "--installed", "--json"]));
    let json = r#"{"uiautomator2": {"version": "2.34.1", "pkgName": "appium-uiautomator2-driver"}}"#;
    assert_eq!(check_uiautomator2(&output(true, json, "")), "2.34.1");
    assert_eq!(check_uiautomator2(&output(true, r#"{"uiautomator2": {"version": 2}}"#, "")), "Installed");
    assert_eq!(check_uiautomator2(&output(true, r#"{"uiautomator2": {}}"#, "")), "Installed");
    assert_eq!(check_uiautomator2(&output(true, r#"{"xcuitest": {"version": "1"}}"#, "")), "Not Found");
    assert_eq!(check_uiautomator2(&output(true, "[]", "")), "Not Found");
    assert_eq!(check_uiautomator2(&output(false, json, "")), "Not Found");
    assert_eq!(check_uiautomator2(&None), "Not Found");
}

#[test]
fn driver_version_from_text() {
    let text = "- Listing installed drivers\n  - uiautomator2@2.34.1 [installed (npm)]  \n";
    assert_eq!(check_uiautomator2(&output(true, text, "")), "- uiautomator2@2.34.1 [installed (npm)]");
    assert_eq!(check_uiautomator2(&output(true, "no drivers", "")), "Not Found");
    assert_eq!(driver_from(Member::NotJson, "x uiautomator2 y"), "x uiautomator2 y");
    assert_eq!(driver_from(Member::NotJson, "uiauto\nmator2"), "Not Found");
    assert_eq!(driver_from(Member::Text("9".to_string()), "ignored"), "9");
    assert_eq!(driver_from(Member::NoOuter, "uiautomator2"), "Not Found");
    assert_eq!(driver_from(Member::NoInner, ""), "Installed");
    assert_eq!(driver_from(Member::NotText, ""), "Installed");
}

#[test]
fn system_versions_are_extracted() {
    let raw = RawVersions {
        adb: "Android Debug Bridge version 1.0.41".to_string(),
        node: "v18.17.0".to_string(),
        python: "Python 3.11.4".to_string(),
        scrcpy: "scrcpy 2.4 <https://github.com/Genymobile/scrcpy>".to_string(),
        appium: some("2.5.1"),
        robot: some("Robot Framework 7.0 (Python 3.11.4 on win32)"),
        uiautomator2: "2.34.1".to_string(),
    };
    assert_eq!(
        get_system_versions(raw),
        SystemVersions {
            adb: "1.0.41".to_string(),
            appium: "2.5.1".to_string(),
            uiautomator2: "2.34.1".to_string(),
            scrcpy: "2.4".to_string(),
            robot: "7.0".to_string(),
            python: "3.11.4".to_string(),
            node: "v18.17.0".to_string(),
        }
    );
}

#[test]
fn system_versions_without_tools() {
    let raw = RawVersions {
        adb: "Not Found".to_string(),
        node: "Not Found".to_string(),
        python: "Not Found".to_string(),
        scrcpy: "Not Found".to_string(),
        appium: None,
        robot: None,
        uiautomator2: "2.0.0".to_string(),
    };
    let versions = get_system_versions(raw);
    assert_eq!(versions.adb, "Not Found");
    assert_eq!(versions.appium, "Not Found");
    assert_eq!(versions.robot, "Not Found");
    assert_eq!(versions.uiautomator2, "Not Found");
}

fn fields() -> LogFields {
    LogFields {
        device_udid: None,
        device_model: None,
        android_version: None,
        recorded: None,
        suite: None,
        passed: None,
        failed: None,
        generated: None,
    }
}

#[test]
fn log_entry_defaults() {
    assert_eq!(
        assemble_log(fields(), None, "/runs/r1", "/runs/r1/output.xml", "/runs/r1/log.html"),
        TestLog {
            path: "/runs/r1".to_string(),
            suite_name: "Unknown".to_string(),
            status: "PASS".to_string(),
            device_udid: None,
            device_model: None,
            android_version: None,
            timestamp: String::new(),
            duration: "0 P / 0 F".to_string(),
            xml_path: "/runs/r1/output.xml".to_string(),
            log_html_path: "/runs/r1/log.html".to_string(),
        }
    );
}

#[test]
fn log_entry_reads_the_folder_name() {
    let log = assemble_log(fields(), Some("A11_Pixel4_xyz_extra"), "f", "x", "l");
    assert_eq!(log.android_version, some("11"));
    assert_eq!(log.device_model, some("Pixel4"));
    assert_eq!(log.device_udid, some("xyz"));
    let mut given = fields();
    given.device_model = some("Galaxy");
    let log = assemble_log(given, Some("A_b_c"), "f", "x", "l");
    assert_eq!(log.android_version, some(""));
    assert_eq!(log.device_model, some("Galaxy"));
    assert_eq!(log.device_udid, some("c"));
    for name in ["B11_Pixel4_xyz", "A11_Pixel4", "", "a11_b_c"] {
        let log = assemble_log(fields(), Some(name), "f", "x", "l");
        assert_eq!(log.android_version, None);
        assert_eq!(log.device_model, None);
        assert_eq!(log.device_udid, None);
    }
}

#[test]
fn log_entry_counts_and_times() {
    let mut given = fields();
    given.passed = some("12");
    given.failed = some("3");
    given.recorded = some("2024-05-01T10:00:00+02:00");
    given.generated = some("20240501 10:00:01.000");
    given.suite = some("Login");
    let log = assemble_log(given, None, "f", "x", "l");
    assert_eq!(log.status, "FAIL");
    assert_eq!(log.duration, "12 P / 3 F");
    assert_eq!(log.timestamp, "2024-05-01T10:00:00+02:00");
    assert_eq!(log.suite_name, "Login");
    let mut given = fields();
    given.passed = some("99999999999");
    given.failed = some("0");
    given.generated = some("20240501 10:00:01.000");
    let log = assemble_log(given, None, "f", "x", "l");
    assert_eq!(log.status, "PASS");
    assert_eq!(log.duration, "0 P / 0 F");
    assert_eq!(log.timestamp, "20240501 10:00:01.000");
}

const RESULT: &str = r#"<?xml version="1.0" encoding="UTF-8"?>
<robot generator="Robot 7.0" generated="2024-05-01T10:00:01.000000" rpa="false">
<suite id="s1" name="Login Suite" source="/tests/login.robot">
</suite>
<statistics><total>
<stat pass="4" fail="1" skip="0">All Tests</stat>
</total></statistics>
</robot>"#;

const METADATA: &str = r#"{
            "run_id": "r1",
            "device_udid": "emulator-5554",
            "test_path": "login.robot",
            "timestamp": "2024-05-01T09:59:00+02:00",
            "device_model": "Pixel 7",
            "android_version": "14"
        }"#;

#[test]
fn log_entry_is_parsed_from_the_files() {
    assert_eq!(
        parse_log_entry(RESULT, Some(METADATA), Some("A11_Old_dev"), "/r/r1", "/r/r1/output.xml", "/r/r1/log.html"),
        Some(TestLog {
            path: "/r/r1".to_string(),
            suite_name: "Login Suite".to_string(),
            status: "FAIL".to_string(),
            device_udid: some("emulator-5554"),
            device_model: some("Pixel 7"),
            android_version: some("14"),
            timestamp: "2024-05-01T09:59:00+02:00".to_string(),
            duration: "4 P / 1 F".to_string(),
            xml_path: "/r/r1/output.xml".to_string(),
            log_html_path: "/r/r1/log.html".to_string(),
        })
    );
}

#[test]
fn log_entry_without_metadata() {
    let log = parse_log_entry(RESULT, None, Some("A13_Pixel8_R58M"), "/r", "/r/output.xml", "/r/log.html").unwrap();
    assert_eq!(log.timestamp, "2024-05-01T10:00:01.000000");
    assert_eq!(log.android_version, some("13"));
    assert_eq!(log.device_model, some("Pixel8"));
    assert_eq!(log.device_udid, some("R58M"));
    let log = parse_log_entry("<robot/>", None, None, "/r", "x", "l").unwrap();
    assert_eq!(log.suite_name, "Unknown");
    assert_eq!(log.status, "PASS");
    assert_eq!(log.duration, "0 P / 0 F");
    assert_eq!(log.timestamp, "");
}

fn log(timestamp: &str, suite: &str) -> TestLog {
    TestLog {
        path: "p".to_string(),
        suite_name: suite.to_string(),
        status: "PASS".to_string(),
        device_udid: None,
        device_model: some("m"),
        android_version: None,
        timestamp: timestamp.to_string(),
        duration: "1 P / 0 F".to_string(),
        xml_path: format!("{}.xml", suite),
        log_html_path: "l".to_string(),
    }
}

#[test]
fn history_is_newest_first() {
    let found = vec![log("2024-01-01", "a"), log("2024-03-01", "b"), log("2024-02-01", "c"), log("2024-03-01", "d")];
    let history = get_test_tests_history(&found);
    let suites: Vec<&str> = history.iter().map(|l| l.suite_name.as_str()).collect();
    assert_eq!(suites, vec!["b", "d", "c", "a"]);
    assert_eq!(history[0], found[1]);
    assert_eq!(get_test_tests_history(&vec![]), vec![]);
}

#[test]
fn history_helpers() {
    assert_eq!(candidate_dirs(None), strings(&["../test_results", "test_results"]));
    assert_eq!(candidate_dirs(Some("")), strings(&["../test_results", "test_results"]));
    assert_eq!(candidate_dirs(Some("/data/runs")), strings(&["/data/runs", "../test_results", "test_results"]));
    assert!(is_result_file("output.xml"));
    assert!(is_result_file("output-20240501-100000.xml"));
    assert!(!is_result_file("log.html"));
    assert!(!is_result_file("output.xml.bak"));
    assert!(!is_result_file("my-output.xml"));
    assert!(is_fresh(true, Some(5), 5));
    assert!(is_fresh(true, Some(4), 5));
    assert!(!is_fresh(true, Some(6), 5));
    assert!(!is_fresh(false, Some(4), 5));
    assert!(!is_fresh(true, None, 5));
    let mut seen = Vec::new();
    assert!(first_visit(&mut seen, "/a"));
    assert!(first_visit(&mut seen, "/b"));
    assert!(!first_visit(&mut seen, "/a"));
    assert_eq!(seen, strings(&["/a", "/b"]));
}

#[test]
fn screenshot_is_encoded() {
    assert_eq!(screencap_args("dev"), strings(&["-s", "dev", "exec-out", "screencap", "-p"]));
    assert_eq!(get_screenshot(true, &b"hello world~".to_vec(), ""), Ok("aGVsbG8gd29ybGR+".to_string()));
    assert_eq!(get_screenshot(true, &vec![], "e"), Ok(String::new()));
    assert_eq!(get_screenshot(true, &vec![0xff], "e"), Ok("/w==".to_string()));
    assert_eq!(get_screenshot(false, &vec![1, 2, 3], "device offline"), Err("ADB screencap failed: device offline".to_string()));
    let picture: Vec<u8> = (0..=255).collect();
    assert_eq!(
        encode_screenshot(&picture),
        Some(base64::engine::general_purpose::STANDARD.encode(&picture))
    );
}

#[test]
fn xml_dump_replies() {
    assert_eq!(
        dump_args("dev"),
        strings(&["-s", "dev", "shell", "uiautomator", "dump", "/data/local/tmp/window_dump.xml"])
    );
    assert_eq!(read_dump_args("dev"), strings(&["-s", "dev", "shell", "cat", "/data/local/tmp/window_dump.xml"]));
    assert_eq!(dump_reply(true, "ignored"), Ok(()));
    assert_eq!(dump_reply(false, "busy"), Err("uiautomator dump failed: busy".to_string()));
    assert_eq!(get_xml_dump(true, "<hierarchy/>", ""), Ok("<hierarchy/>".to_string()));
    assert_eq!(get_xml_dump(false, "", "gone"), Err("Failed to read dump file: gone".to_string()));
}

#[test]
fn recording_commands() {
    assert_eq!(FINALIZE_SECS, 2);
    assert_eq!(
        start_screen_recording("dev"),
        strings(&["-s", "dev", "shell", "screenrecord", "--verbose", "/sdcard/robot_runner_rec.mp4"])
    );
    assert_eq!(
        interrupt_recording_args("dev", "pkill"),
        strings(&["-s", "dev", "shell", "pkill", "-2", "screenrecord"])
    );
    assert_eq!(
        interrupt_recording_args("dev", "killall"),
        strings(&["-s", "dev", "shell", "killall", "-2", "screenrecord"])
    );
    assert_eq!(
        pull_recording_args("dev", "/tmp/v.mp4"),
        strings(&["-s", "dev", "pull", "/sdcard/robot_runner_rec.mp4", "/tmp/v.mp4"])
    );
    assert_eq!(remove_recording_args("dev"), strings(&["-s", "dev", "shell", "rm", "/sdcard/robot_runner_rec.mp4"]));
    assert_eq!(stop_screen_recording(true, "/tmp/v.mp4", ""), Ok("/tmp/v.mp4".to_string()));
    assert_eq!(stop_screen_recording(false, "/tmp/v.mp4", "no file"), Err("Failed to pull video: no file".to_string()));
    assert_eq!(save_screenshot(true, "/tmp/s.png", ""), Ok("/tmp/s.png".to_string()));
    assert_eq!(save_screenshot(false, "/tmp/s.png", "offline"), Err("ADB Screenshot failed: offline".to_string()));
}

#[test]
fn scrcpy_commands() {
    assert_eq!(scrcpy_program(false), "scrcpy");
    assert_eq!(scrcpy_program(true), "cmd");
    assert_eq!(open_scrcpy("dev", None, false), strings(&["-s", "dev"]));
    assert_eq!(
        open_scrcpy("dev", Some(" --max-size 1024  --stay-awake"), false),
        strings(&["-s", "dev", "--max-size", "1024", "--stay-awake"])
    );
    assert_eq!(
        open_scrcpy("dev", Some("-b 2M"), true),
        strings(&["/C", "start", "/B", "", "scrcpy", "-s", "dev", "-b", "2M"])
    );
}

fn entry(name: &str, is_dir: bool) -> FileEntry {
    FileEntry { name: name.to_string(), path: format!("/d/{}", name), is_dir }
}

#[test]
fn directory_listing_is_sorted() {
    assert_eq!(target_path(None), ".");
    assert_eq!(target_path(Some("")), ".");
    assert_eq!(target_path(Some("/tests")), "/tests");
    assert!(hidden(".git"));
    assert!(!hidden("git."));
    assert!(!hidden(""));
    let entries = vec![
        entry("zeta.robot", false),
        entry(".hidden", true),
        entry("Alpha.robot", false),
        entry("resources", true),
        entry("beta.robot", false),
        entry("Libs", true),
        entry(".env", false),
    ];
    let names: Vec<String> = list_directory(&entries).into_iter().map(|e| e.name).collect();
    assert_eq!(names, strings(&["Libs", "resources", "Alpha.robot", "beta.robot", "zeta.robot"]));
    assert_eq!(list_directory(&vec![]), vec![]);
}

#[test]
fn directory_listing_ignores_case() {
    let entries = vec![entry("Zeta.robot", false), entry("alpha.robot", false), entry("Beta", true), entry("apps", true)];
    let names: Vec<String> = list_directory(&entries).into_iter().map(|e| e.name).collect();
    assert_eq!(names, strings(&["apps", "Beta", "alpha.robot", "Zeta.robot"]));
    let entries = vec![entry("Éa", false), entry("éB", false), entry("ÉC", false)];
    let names: Vec<String> = list_directory(&entries).into_iter().map(|e| e.name).collect();
    assert_eq!(names, strings(&["Éa", "éB", "ÉC"]));
}

#[test]
fn directory_listing_keeps_ties_in_order() {
    let entries = vec![entry("README", false), entry("readme", false), entry("Readme", false)];
    let names: Vec<String> = list_directory(&entries).into_iter().map(|e| e.name).collect();
    assert_eq!(names, strings(&["README", "readme", "Readme"]));
}
