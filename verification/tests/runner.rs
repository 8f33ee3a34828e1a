use robot_runner::process::Stream;
use robot_runner::runner::{
    clean_output_dir, escape, metadata_json, robot_args, run_robot_test, stop_robot_test,
    test_finished, test_output, TestFinished, TestOutput, TestState, TestStop,
};
use robot_runner::supervisor::{Action, Completion, Event};

fn strings(items: &[&str]) -> Vec<String> {
    items.iter().map(|s| s.to_string()).collect()
}

fn some(s: &str) -> Option<String> {
    Some(s.to_string())
}

#[test]
fn output_dir_loses_the_verbatim_prefix() {
    assert_eq!(clean_output_dir(Some(r"\\?\C:\runs\out"), "out"), r"C:\runs\out");
    assert_eq!(clean_output_dir(Some("/home/u/out"), "out"), "/home/u/out");
    assert_eq!(clean_output_dir(None, "./out"), "./out");
    assert_eq!(clean_output_dir(Some(r"\\?"), "x"), r"\\?");
    assert_eq!(clean_output_dir(Some(r"\\?\"), "x"), "");
}

#[test]
fn robot_args_minimal() {
    assert_eq!(
        robot_args("/out", None, &None, &None, &None),
        strings(&["-d", "/out", "--console", "verbose"])
    );
    assert_eq!(
        robot_args("/out", Some(false), &None, &None, &some("")),
        strings(&["-d", "/out", "--console", "verbose"])
    );
}

#[test]
fn robot_args_full() {
    assert_eq!(
        robot_args("/out", Some(true), &some("emulator-5554"), &some("args.txt"), &some("tests/login.robot")),
        strings(&[
            "-d", "/out", "--console", "verbose", "--timestampoutputs", "-v",
            "udid:emulator-5554", "-A", "args.txt", "tests/login.robot",
        ])
    );
}

#[test]
fn escape_quotes_and_backslashes() {
    for s in ["", "plain", r"C:\tests\a.robot", "say \"hi\"", "\\\"", "a\\\\b"] {
        assert_eq!(escape(s), s.replace("\\", "\\\\").replace("\"", "\\\""));
    }
    assert_eq!(escape(r#"a\b"c"#), r#"a\\b\"c"#);
}

#[test]
fn metadata_json_text() {
    let text = metadata_json(
        "run-7",
        &some("emulator-5554"),
        &some(r"C:\t\a.robot"),
        "2024-05-01T10:00:00+02:00",
        &some("Pixel \"4\""),
        &None,
    );
    let expected = format!(
        r#"{{
            "run_id": "{}",
            "device_udid": "{}",
            "test_path": "{}",
            "timestamp": "{}",
            "device_model": "{}",
            "android_version": "{}"
        }}"#,
        "run-7",
        "emulator-5554",
        r"C:\\t\\a.robot",
        "2024-05-01T10:00:00+02:00",
        r#"Pixel \"4\""#,
        ""
    );
    assert_eq!(text, expected);
}

#[test]
fn metadata_json_without_device() {
    let text = metadata_json("r", &None, &None, "t", &None, &None);
    assert!(text.contains("\"device_udid\": \"Local/Unknown\""));
    assert!(text.contains("\"test_path\": \"\""));
    assert!(text.starts_with("{\n            \"run_id\": \"r\",\n"));
    assert!(text.ends_with("\"android_version\": \"\"\n        }"));
}

#[test]
fn output_lines_are_trimmed_and_marked() {
    assert_eq!(
        test_output("run-1", Stream::Stdout, "Login :: ok   \r\n"),
        TestOutput { run_id: "run-1".to_string(), message: "Login :: ok".to_string() }
    );
    assert_eq!(
        test_output("run-1", Stream::Stderr, "  warning\n"),
        TestOutput { run_id: "run-1".to_string(), message: "STDERR:   warning".to_string() }
    );
    assert_eq!(test_output("r", Stream::Stderr, "\n").message, "STDERR: ");
}

#[test]
fn finish_messages() {
    assert_eq!(
        test_finished("run-1", Completion::Exited(0), "exit status: 0"),
        TestFinished { run_id: "run-1".to_string(), status: "Exit Code: exit status: 0".to_string() }
    );
    assert_eq!(
        test_finished("run-1", Completion::StatusUnknown, "broken pipe").status,
        "Error checking status: broken pipe"
    );
    assert_eq!(
        test_finished("run-1", Completion::NotStarted, "No such file").status,
        "Failed to start robot: No such file. Make sure 'robot' is requested in PATH."
    );
}

#[test]
fn run_is_admitted_once() {
    let mut state = TestState::new();
    let run = run_robot_test(
        &mut state,
        "run-1".to_string(),
        some("suite.robot"),
        "/out".to_string(),
        some("dev"),
        None,
        Some(true),
        some("Pixel"),
        some("14"),
    )
    .unwrap();
    assert_eq!(run.unit, 0);
    assert_eq!(run.message, "Started");
    assert_eq!(
        run.args,
        strings(&["-d", "/out", "--console", "verbose", "--timestampoutputs", "-v", "udid:dev", "suite.robot"])
    );
    assert!(run.metadata.contains("\"run_id\": \"run-1\""));
    assert!(run.metadata.contains("\"device_udid\": \"dev\""));
    assert!(run.metadata.contains("\"device_model\": \"Pixel\""));
    assert!(run.metadata.contains("\"android_version\": \"14\""));
    assert!(!run.metadata.contains("\"timestamp\": \"\""));
    let again = run_robot_test(&mut state, "run-1".to_string(), None, "/out".to_string(), None, None, None, None, None);
    assert_eq!(again, Err("Run ID run-1 already exists".to_string()));
    assert_eq!(state.registry.len(), 1);
}

#[test]
fn run_ends_with_its_process() {
    let mut state = TestState::new();
    let run = run_robot_test(&mut state, "r".to_string(), None, "/o".to_string(), None, None, None, None, None).unwrap();
    assert_eq!(state.registry.drive("r", run.unit, Event::Start), Action::Spawn { identity: None });
    assert_eq!(state.registry.drive("r", run.unit, Event::Spawned(9)), Action::Wait(500));
    assert_eq!(state.registry.drive("r", run.unit, Event::Woke), Action::Poll);
    assert_eq!(
        state.registry.drive("r", run.unit, Event::Polled(robot_runner::process::PollStatus::Exited(1))),
        Action::Finish(Completion::Exited(1))
    );
    assert!(!state.registry.contains("r"));
    assert_eq!(
        stop_robot_test(&mut state, "r"),
        Ok(TestStop { message: "Test r not running".to_string(), kill: None })
    );
}

#[test]
fn stop_names_the_process_tree() {
    let mut state = TestState::new();
    let run = run_robot_test(&mut state, "r".to_string(), None, "/o".to_string(), None, None, None, None, None).unwrap();
    state.registry.drive("r", run.unit, Event::Start);
    state.registry.drive("r", run.unit, Event::Spawned(900));
    let stop = stop_robot_test(&mut state, "r").unwrap();
    assert_eq!(stop.message, "Test r stopped");
    assert_eq!(stop.kill, Some(900));
    assert_eq!(
        stop_robot_test(&mut state, "r"),
        Ok(TestStop { message: "Test r not running".to_string(), kill: None })
    );
    assert_eq!(state.registry.drive("r", run.unit, Event::Woke), Action::Exit);
}

#[test]
fn stop_of_a_run_that_never_ran_is_no_error() {
    let mut state = TestState::new();
    let other = run_robot_test(&mut state, "kept".to_string(), None, "/o".to_string(), None, None, None, None, None).unwrap();
    state.registry.drive("kept", other.unit, Event::Start);
    state.registry.drive("kept", other.unit, Event::Spawned(77));
    for _ in 0..2 {
        assert_eq!(
            stop_robot_test(&mut state, "never"),
            Ok(TestStop { message: "Test never not running".to_string(), kill: None })
        );
    }
    assert_eq!(state.registry.len(), 1);
    assert_eq!(state.registry.unit_id("kept"), Some(other.unit));
    assert_eq!(
        stop_robot_test(&mut state, "kept"),
        Ok(TestStop { message: "Test kept stopped".to_string(), kill: Some(77) })
    );
}

#[test]
fn run_id_in_use_is_refused_whatever_is_asked() {
    let mut state = TestState::new();
    let run = run_robot_test(&mut state, "r".to_string(), None, "/o".to_string(), None, None, None, None, None).unwrap();
    state.registry.drive("r", run.unit, Event::Start);
    state.registry.drive("r", run.unit, Event::Spawned(5));
    let again = run_robot_test(
        &mut state,
        "r".to_string(),
        Some("other.robot".to_string()),
        "/elsewhere".to_string(),
        Some("dev".to_string()),
        Some("args".to_string()),
        Some(true),
        None,
        None,
    );
    assert_eq!(again, Err("Run ID r already exists".to_string()));
    assert_eq!(state.registry.len(), 1);
    assert_eq!(state.registry.admissions(), 1);
    assert_eq!(state.registry.unit_id("r"), Some(run.unit));
    assert_eq!(stop_robot_test(&mut state, "r").unwrap().kill, Some(5));
}
