use robot_runner::stats::{
    app_cpu_fields, app_fps_command, app_ram_command, extract_kb, frame_stats, get_app_fps,
    get_app_ram, parse_battery_level, parse_mem_info, Fps, FrameStats, DEFAULT_CPU_COLUMN,
    IDLE_GAP_NS,
};

const BATTERY: &str = "Current Battery Service state:\n  AC powered: false\n  USB powered: true\n  status: 2\n  health: 2\n  present: true\n  level: 87\n  scale: 100\n";

#[test]
fn battery_level_is_read() {
    assert_eq!(parse_battery_level(BATTERY), Some(87));
    assert_eq!(parse_battery_level("level: 100"), Some(100));
    assert_eq!(parse_battery_level("level:0\n"), Some(0));
    assert_eq!(parse_battery_level("  level:   255  \r\n"), Some(255));
}

#[test]
fn battery_level_of_a_bad_report() {
    assert_eq!(parse_battery_level(""), None);
    assert_eq!(parse_battery_level("no such service"), None);
    assert_eq!(parse_battery_level("level: 256"), None);
    assert_eq!(parse_battery_level("level: high"), None);
    assert_eq!(parse_battery_level("level:"), None);
    assert_eq!(parse_battery_level("level: -1"), None);
}

#[test]
fn battery_level_takes_the_first_level_line() {
    assert_eq!(parse_battery_level("level: x\nlevel: 50"), None);
    assert_eq!(parse_battery_level("level: 40\nlevel: 50"), Some(40));
    assert_eq!(parse_battery_level("Max level: 3\n level: 9"), Some(9));
    assert_eq!(parse_battery_level("level: 7: 8"), Some(7));
}

#[test]
fn extract_kb_reads_the_second_word() {
    assert_eq!(extract_kb("MemTotal:        5850688 kB"), Some(5850688));
    assert_eq!(extract_kb("MemTotal: 123 kB"), Some(123));
    assert_eq!(extract_kb("MemTotal:"), None);
    assert_eq!(extract_kb("MemTotal: lots kB"), None);
    assert_eq!(extract_kb(""), None);
    assert_eq!(extract_kb("a 18446744073709551615"), Some(u64::MAX));
    assert_eq!(extract_kb("a 18446744073709551616"), None);
}

#[test]
fn mem_info_gives_total_and_used() {
    let report = "MemTotal:        5850688 kB\nMemFree:          123456 kB\nMemAvailable:    2345678 kB\n";
    assert_eq!(parse_mem_info(report), Some((5850688, 3505010)));
    assert_eq!(parse_mem_info("MemTotal: 1000 kB\n"), Some((1000, 1000)));
    assert_eq!(parse_mem_info("MemTotal: 1000 kB\nMemAvailable: 1000 kB"), Some((1000, 0)));
}

#[test]
fn mem_info_without_a_total() {
    assert_eq!(parse_mem_info(""), None);
    assert_eq!(parse_mem_info("MemAvailable: 5 kB"), None);
    assert_eq!(parse_mem_info("MemTotal: 0 kB"), None);
    assert_eq!(parse_mem_info(" MemTotal: 9 kB"), None);
}

#[test]
fn mem_info_takes_the_last_numbers() {
    assert_eq!(parse_mem_info("MemTotal: 10 kB\nMemTotal: 20 kB\nMemAvailable: 5 kB"), Some((20, 15)));
    assert_eq!(parse_mem_info("MemTotal: 10 kB\nMemTotal: x kB"), Some((10, 10)));
}

#[test]
fn mem_info_with_more_available_than_total() {
    assert_eq!(parse_mem_info("MemTotal: 10 kB\nMemAvailable: 11 kB"), None);
}

#[test]
fn app_ram_is_the_total() {
    assert_eq!(app_ram_command("com.example.app"), "dumpsys meminfo com.example.app");
    let report = "** MEMINFO in pid 1234 [com.example.app] **\n        Java Heap:    10000\n           TOTAL   123456   98765\n";
    assert_eq!(get_app_ram(report), Some(123456));
    assert_eq!(get_app_ram("TOTAL 5"), Some(5));
    assert_eq!(get_app_ram("TOTAL: 77 kB"), Some(77));
    assert_eq!(get_app_ram("TOTAL PSS: 1 2\nTOTAL 5"), Some(5));
    assert_eq!(get_app_ram("Total PSS: 42\n TOTAL 9 8"), Some(9));
    assert_eq!(get_app_ram("Total 5"), None);
    assert_eq!(get_app_ram(""), None);
    assert_eq!(get_app_ram("TOTAL"), None);
}

fn frame(due: u64, completed: u64) -> String {
    format!("0,{},3,4,5,6,7,8,9,10,11,12,13,{},15", due, completed)
}

#[test]
fn frame_stats_reads_frames_and_uptime() {
    assert_eq!(
        app_fps_command("com.app"),
        "dumpsys gfxinfo com.app framestats; echo UPTIME_MARKER; cat /proc/uptime"
    );
    let report = format!(
        "Stats since: 1\nFlags,IntendedVsync,Vsync\n{}\n{}\n{}\nshort,1,2\nUPTIME_MARKER\n12345.67 9999.99\n",
        frame(1000, 5),
        frame(2000, 0),
        frame(3000, 9)
    );
    assert_eq!(
        frame_stats(&report),
        FrameStats { vsyncs: vec![1000, 3000], uptime_words: vec!["12345.67".to_string()] }
    );
}

#[test]
fn frame_stats_edge_cases() {
    assert_eq!(frame_stats(""), FrameStats { vsyncs: vec![], uptime_words: vec![] });
    let thirteen = "0,1,2,3,4,5,6,7,8,9,10,11,12";
    assert_eq!(frame_stats(thirteen).vsyncs, Vec::<u64>::new());
    let bad_number = "0,x,2,3,4,5,6,7,8,9,10,11,12,13";
    assert_eq!(frame_stats(bad_number).vsyncs, Vec::<u64>::new());
    let after = format!("UPTIME_MARKER\n{}\n\n 7.5 1\nUPTIME_MARKER again\n", frame(1, 1));
    assert_eq!(
        frame_stats(&after),
        FrameStats { vsyncs: vec![], uptime_words: vec!["0,1,3,4,5,6,7,8,9,10,11,12,13,1,15".to_string(), "7.5".to_string()] }
    );
}

#[test]
fn fps_needs_frames() {
    assert_eq!(get_app_fps(&vec![], 0), Fps::Unknown);
    assert_eq!(get_app_fps(&vec![], 1_000_000_000), Fps::Unknown);
    assert_eq!(get_app_fps(&vec![5], 0), Fps::Unknown);
    assert_eq!(get_app_fps(&vec![5, 5], 0), Fps::Unknown);
    assert_eq!(get_app_fps(&vec![9, 5], 0), Fps::Unknown);
}

#[test]
fn fps_idle_after_half_a_second() {
    assert_eq!(IDLE_GAP_NS, 500_000_000);
    let frames = vec![1_000_000_000, 2_000_000_000];
    assert_eq!(get_app_fps(&frames, 2_500_000_001), Fps::Idle);
    assert_eq!(get_app_fps(&frames, 2_500_000_000), Fps::Rate { frames: 1, nanos: 1_000_000_000 });
    assert_eq!(get_app_fps(&frames, 1_500_000_000), Fps::Rate { frames: 1, nanos: 1_000_000_000 });
    assert_eq!(get_app_fps(&vec![7], 600_000_000), Fps::Idle);
}

#[test]
fn fps_rate_counts_frames_after_the_first() {
    let frames: Vec<u64> = (0..61).map(|i| 1_000_000 + i * 16_666_667).collect();
    assert_eq!(get_app_fps(&frames, 0), Fps::Rate { frames: 60, nanos: 60 * 16_666_667 });
}

#[test]
fn cpu_fields_follow_the_header() {
    assert_eq!(DEFAULT_CPU_COLUMN, 8);
    let table = "Tasks: 600 total\n  PID USER         PR  NI VIRT  RES  SHR S[%CPU] %MEM     TIME+ ARGS\n 1234 u0_a123      10 -10  14G 200M 100M S 12.3   3.4   1:02.03 com.example.app\n 99 root 20 0 1 1 1 S 0.0 0.0 0:00.00 other\n";
    assert_eq!(app_cpu_fields(table, "com.example.app"), vec!["S".to_string()]);
    let spaced = "PID USER PR NI VIRT RES SHR S %CPU %MEM TIME+ ARGS\n1 u 10 0 1 1 1 S 12.3 3.4 1:02 com.example.app\n2 u 10 0 1 1 1 S 4.0 3.4 1:02 com.example.app:remote\n";
    assert_eq!(app_cpu_fields(spaced, "com.example.app"), vec!["12.3".to_string(), "4.0".to_string()]);
}

#[test]
fn cpu_fields_without_a_header() {
    let table = "1 u 10 0 1 1 1 S 7.7 3.4 1:02 com.example.app\nshort com.example.app\n";
    assert_eq!(app_cpu_fields(table, "com.example.app"), vec!["7.7".to_string()]);
    assert_eq!(app_cpu_fields(table, "com.absent"), Vec::<String>::new());
    assert_eq!(app_cpu_fields("", "x"), Vec::<String>::new());
}
