use robot_runner::logcat::{
    fetch_logcat_buffer, get_logcat_details, get_pid, is_logcat_active, logcat_args, parse_pid,
    pidof_args, score_args, start_logcat, stop_logcat, LogcatDetails, LogcatProcess, LogcatState,
    CACHED_SCORE,
};
use robot_runner::monitor::Lookup;
use robot_runner::registry::ReadOutcome;
use robot_runner::supervisor::{Action, Event};

fn strings(items: &[&str]) -> Vec<String> {
    items.iter().map(|s| s.to_string()).collect()
}

#[test]
fn logcat_args_without_filter() {
    assert_eq!(
        logcat_args("emulator-5554", None, "V"),
        strings(&["-s", "emulator-5554", "shell", "logcat", "-v", "threadtime", "*:V"])
    );
}

#[test]
fn logcat_args_bound_to_a_process() {
    assert_eq!(
        logcat_args("R58M", Some("1234"), "E"),
        strings(&["-s", "R58M", "shell", "logcat", "--pid", "1234", "-v", "threadtime", "*:E"])
    );
}

#[test]
fn lookup_commands() {
    assert_eq!(
        pidof_args("dev", "com.example.app"),
        strings(&["-s", "dev", "shell", "pidof", "-s", "com.example.app"])
    );
    assert_eq!(
        score_args("dev", "1234"),
        strings(&["-s", "dev", "shell", "cat", "/proc/1234/oom_score_adj"])
    );
}

#[test]
fn parse_pid_trims_the_answer() {
    assert_eq!(parse_pid("1234\n"), Some("1234".to_string()));
    assert_eq!(parse_pid("  77  "), Some("77".to_string()));
    assert_eq!(parse_pid(""), None);
    assert_eq!(parse_pid("\r\n"), None);
}

#[test]
fn get_pid_classifies_the_answers() {
    assert_eq!(CACHED_SCORE, 900);
    assert_eq!(get_pid(None, None), Lookup::Failed);
    assert_eq!(get_pid(Some(""), None), Lookup::NotFound);
    assert_eq!(get_pid(Some("\n"), Some("0\n")), Lookup::NotFound);
    assert_eq!(get_pid(Some("1234\n"), Some("0\n")), Lookup::Found("1234".to_string()));
    assert_eq!(get_pid(Some("1234\n"), Some("899\n")), Lookup::Found("1234".to_string()));
    assert_eq!(get_pid(Some("1234\n"), Some("900\n")), Lookup::Stale);
    assert_eq!(get_pid(Some("1234\n"), Some("  950 ")), Lookup::Stale);
    assert_eq!(get_pid(Some("1234\n"), Some("-1000\n")), Lookup::Found("1234".to_string()));
    assert_eq!(get_pid(Some("1234\n"), Some("No such file")), Lookup::Found("1234".to_string()));
    assert_eq!(get_pid(Some("1234\n"), Some("")), Lookup::Found("1234".to_string()));
    assert_eq!(get_pid(Some("1234\n"), None), Lookup::Found("1234".to_string()));
}

#[test]
fn start_logcat_admits_once() {
    let mut state = LogcatState::new();
    let started = start_logcat(&mut state, "dev".to_string(), None, None, None);
    assert_eq!(started.message, "Logcat started");
    assert_eq!(started.header, Some("--- Logcat started for device: dev ---".to_string()));
    assert_eq!(
        started.process,
        Some(LogcatProcess {
            device: "dev".to_string(),
            unit: 0,
            filter: None,
            level: "V".to_string(),
            output_file: None,
        })
    );
    let again = start_logcat(
        &mut state,
        "dev".to_string(),
        Some("com.example.app".to_string()),
        Some("E".to_string()),
        None,
    );
    assert_eq!(again.message, "Logcat already running");
    assert_eq!(again.header, None);
    assert_eq!(again.process, None);
    assert_eq!(state.registry.len(), 1);
    assert_eq!(state.registry.admissions(), 1);
    assert_eq!(state.registry.unit_id("dev"), Some(0));
    assert_eq!(get_logcat_details(&state, "dev"), LogcatDetails { is_active: true, output_file: None });
}

#[test]
fn started_stream_has_no_output_yet() {
    let mut state = LogcatState::new();
    let started = start_logcat(&mut state, "dev".to_string(), None, None, None);
    assert_eq!(started.header, Some("--- Logcat started for device: dev ---".to_string()));
    assert_eq!(fetch_logcat_buffer(&state, "dev", 0), (Vec::<String>::new(), 0));
    let other =
        start_logcat(&mut state, "other".to_string(), None, None, Some("/tmp/log.txt".to_string()));
    assert_eq!(
        other.header,
        Some("--- Logcat started for device: other (Writing to /tmp/log.txt) ---".to_string())
    );
    assert_eq!(fetch_logcat_buffer(&state, "other", 0), (Vec::<String>::new(), 0));
}

#[test]
fn only_relayed_lines_are_polled() {
    let mut state = LogcatState::new();
    let process = start_logcat(&mut state, "dev".to_string(), None, None, None).process.unwrap();
    for i in 0..5 {
        state.registry.relay("dev", process.unit, ReadOutcome::Line(format!("line {}", i)));
    }
    let (lines, next) = fetch_logcat_buffer(&state, "dev", 0);
    assert_eq!(lines.len(), 5);
    assert_eq!(lines[0], "line 0");
    assert_eq!(lines[4], "line 4");
    assert_eq!(next, 5);
    assert_eq!(fetch_logcat_buffer(&state, "dev", 5), (Vec::<String>::new(), 5));
}

#[test]
fn start_logcat_with_filter_resolves_first() {
    let mut state = LogcatState::new();
    let started = start_logcat(
        &mut state,
        "dev".to_string(),
        Some("com.example.app".to_string()),
        Some("W".to_string()),
        None,
    );
    let process = started.process.unwrap();
    assert_eq!(process.filter, Some("com.example.app".to_string()));
    assert_eq!(process.level, "W");
    assert_eq!(state.registry.drive("dev", process.unit, Event::Start), Action::Resolve);
    for _ in 0..3 {
        let lookup = get_pid(Some(""), None);
        assert_eq!(state.registry.drive("dev", process.unit, Event::Resolved(lookup)), Action::Wait(1500));
        assert_eq!(state.registry.drive("dev", process.unit, Event::Woke), Action::Resolve);
    }
    let lookup = get_pid(Some("1234\n"), Some("0\n"));
    assert_eq!(
        state.registry.drive("dev", process.unit, Event::Resolved(lookup)),
        Action::Spawn { identity: Some("1234".to_string()) }
    );
}

#[test]
fn stop_logcat_answers() {
    let mut state = LogcatState::new();
    let process = start_logcat(&mut state, "dev".to_string(), None, None, None).process.unwrap();
    state.registry.drive("dev", process.unit, Event::Start);
    state.registry.drive("dev", process.unit, Event::Spawned(321));
    assert!(is_logcat_active(&state, "dev"));
    let stopped = stop_logcat(&mut state, "dev");
    assert_eq!(stopped.message, "Logcat stopped");
    assert_eq!(stopped.kill, Some(321));
    assert!(!is_logcat_active(&state, "dev"));
    let again = stop_logcat(&mut state, "dev");
    assert_eq!(again.message, "Logcat not running");
    assert_eq!(again.kill, None);
}

#[test]
fn logcat_details_follow_the_registry() {
    let mut state = LogcatState::new();
    assert_eq!(get_logcat_details(&state, "dev"), LogcatDetails { is_active: false, output_file: None });
    start_logcat(&mut state, "dev".to_string(), None, None, Some("out.txt".to_string()));
    assert_eq!(
        get_logcat_details(&state, "dev"),
        LogcatDetails { is_active: true, output_file: Some("out.txt".to_string()) }
    );
    stop_logcat(&mut state, "dev");
    assert_eq!(get_logcat_details(&state, "dev"), LogcatDetails { is_active: false, output_file: None });
}

#[test]
fn fetch_of_unknown_device_is_empty() {
    let state = LogcatState::new();
    assert_eq!(fetch_logcat_buffer(&state, "dev", 0), (Vec::<String>::new(), 0));
}
