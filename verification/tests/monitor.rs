use robot_runner::monitor::{check_identity, check_liveness, needs_lookup, verdict, Lookup, Verdict};
use robot_runner::process::{PollStatus, ProcessHandle, Stream};

fn found(id: &str) -> Lookup {
    Lookup::Found(id.to_string())
}

#[test]
fn missing_or_dead_process_is_restarted() {
    assert_eq!(check_liveness(None), Verdict::Restart);
    assert_eq!(check_liveness(Some(PollStatus::Exited(0))), Verdict::Restart);
    assert_eq!(check_liveness(Some(PollStatus::Exited(1))), Verdict::Restart);
    assert_eq!(check_liveness(Some(PollStatus::Error)), Verdict::Restart);
    assert_eq!(check_liveness(Some(PollStatus::Running)), Verdict::NoAction);
}

#[test]
fn identity_drift_is_restarted() {
    let spawned = Some("1234".to_string());
    assert_eq!(check_identity(&spawned, &found("1234")), Verdict::NoAction);
    assert_eq!(check_identity(&spawned, &found("1235")), Verdict::Restart);
    assert_eq!(check_identity(&spawned, &Lookup::NotFound), Verdict::Restart);
    assert_eq!(check_identity(&spawned, &Lookup::Stale), Verdict::Restart);
    assert_eq!(check_identity(&spawned, &Lookup::Failed), Verdict::Restart);
    assert_eq!(check_identity(&None, &found("1234")), Verdict::Restart);
}

#[test]
fn stop_flag_overrides_everything() {
    let spawned = Some("7".to_string());
    assert_eq!(verdict(true, Some(PollStatus::Running), true, &spawned, &found("7")), Verdict::Terminate);
    assert_eq!(verdict(true, None, false, &None, &Lookup::NotFound), Verdict::Terminate);
    assert_eq!(verdict(true, Some(PollStatus::Exited(3)), true, &spawned, &found("8")), Verdict::Terminate);
}

#[test]
fn filterless_unit_checks_liveness_only() {
    assert_eq!(verdict(false, Some(PollStatus::Running), false, &None, &Lookup::NotFound), Verdict::NoAction);
    assert_eq!(verdict(false, Some(PollStatus::Running), false, &None, &found("9")), Verdict::NoAction);
    assert_eq!(verdict(false, Some(PollStatus::Exited(0)), false, &None, &Lookup::NotFound), Verdict::Restart);
    assert_eq!(verdict(false, None, false, &None, &Lookup::NotFound), Verdict::Restart);
}

#[test]
fn filtered_unit_follows_its_target() {
    let spawned = Some("A".to_string());
    let running = Some(PollStatus::Running);
    assert_eq!(verdict(false, running, true, &spawned, &found("A")), Verdict::NoAction);
    assert_eq!(verdict(false, running, true, &spawned, &found("B")), Verdict::Restart);
    assert_eq!(verdict(false, running, true, &spawned, &Lookup::Stale), Verdict::Restart);
    assert_eq!(verdict(false, running, true, &spawned, &Lookup::Failed), Verdict::Restart);
    assert_eq!(verdict(false, Some(PollStatus::Error), true, &spawned, &found("A")), Verdict::Restart);
}

#[test]
fn lookup_is_needed_only_for_a_live_filtered_unit() {
    assert!(needs_lookup(false, Some(PollStatus::Running), true));
    assert!(!needs_lookup(true, Some(PollStatus::Running), true));
    assert!(!needs_lookup(false, Some(PollStatus::Running), false));
    assert!(!needs_lookup(false, Some(PollStatus::Exited(0)), true));
    assert!(!needs_lookup(false, None, true));
}

#[test]
fn identity_sequence_gives_one_restart() {
    let samples = ["A", "A", "B", "B"];
    let mut spawned = Some(samples[0].to_string());
    let mut restarts = Vec::new();
    for (i, sample) in samples.iter().enumerate().skip(1) {
        if check_identity(&spawned, &found(sample)) == Verdict::Restart {
            restarts.push(i);
            spawned = Some(sample.to_string());
        }
    }
    assert_eq!(restarts, vec![2]);
    assert_eq!(spawned, Some("B".to_string()));
}

#[test]
fn streams_are_taken_once() {
    let mut handle = ProcessHandle::new(42);
    assert_eq!(handle.pid(), 42);
    assert!(handle.take_stdout());
    assert!(!handle.take_stdout());
    assert!(handle.take_stderr());
    assert!(!handle.take_stderr());
    assert!(!handle.take(Stream::Stdout));
    assert_eq!(handle.pid(), 42);
}

#[test]
fn poll_status_liveness() {
    assert!(PollStatus::Running.alive());
    assert!(!PollStatus::Exited(0).alive());
    assert!(!PollStatus::Error.alive());
}
