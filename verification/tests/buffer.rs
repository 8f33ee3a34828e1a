use robot_runner::buffer::{OutputBuffer, EVICT_BATCH, HIGH_WATER};

fn filled(n: usize) -> OutputBuffer {
    let mut buffer = OutputBuffer::new();
    for i in 0..n {
        buffer.push(format!("line {}", i));
    }
    buffer
}

#[test]
fn new_buffer_is_empty() {
    let buffer = OutputBuffer::new();
    assert_eq!(buffer.len(), 0);
    assert_eq!(buffer.base(), 0);
    assert_eq!(buffer.end_offset(), 0);
    assert_eq!(buffer.read_from(0), (Vec::<String>::new(), 0));
}

#[test]
fn lines_keep_their_order() {
    let mut buffer = OutputBuffer::new();
    buffer.push("l1".to_string());
    buffer.push("l2".to_string());
    buffer.push("l3".to_string());
    let (lines, next) = buffer.read_from(0);
    assert_eq!(lines, vec!["l1".to_string(), "l2".to_string(), "l3".to_string()]);
    assert_eq!(next, 3);
}

#[test]
fn poll_returns_new_lines_once() {
    let buffer = filled(5);
    let (lines, next) = buffer.read_from(0);
    assert_eq!(lines.len(), 5);
    assert_eq!(lines[0], "line 0");
    assert_eq!(lines[4], "line 4");
    assert_eq!(next, 5);
    let (lines, next) = buffer.read_from(5);
    assert!(lines.is_empty());
    assert_eq!(next, 5);
}

#[test]
fn poll_from_the_middle() {
    let buffer = filled(5);
    let (lines, next) = buffer.read_from(3);
    assert_eq!(lines, vec!["line 3".to_string(), "line 4".to_string()]);
    assert_eq!(next, 5);
}

#[test]
fn poll_past_the_end_returns_nothing() {
    let buffer = filled(5);
    assert_eq!(buffer.read_from(9), (Vec::<String>::new(), 5));
}

#[test]
fn full_buffer_holds_high_water_lines() {
    let buffer = filled(HIGH_WATER);
    assert_eq!(buffer.len(), 10000);
    assert_eq!(buffer.base(), 0);
    assert_eq!(buffer.end_offset(), 10000);
}

#[test]
fn one_line_too_many_evicts_a_batch() {
    let buffer = filled(HIGH_WATER + 1);
    assert_eq!(EVICT_BATCH, 1000);
    assert_eq!(buffer.len(), 9001);
    assert_eq!(buffer.base(), 1000);
    assert_eq!(buffer.end_offset(), 10001);
    let (lines, next) = buffer.read_from(0);
    assert_eq!(lines.len(), 9001);
    assert_eq!(lines[0], "line 1000");
    assert_eq!(lines[9000], "line 10000");
    assert_eq!(next, 10001);
}

#[test]
fn buffer_never_grows_past_high_water() {
    let mut buffer = OutputBuffer::new();
    for i in 0..25000 {
        buffer.push(format!("line {}", i));
        assert!(buffer.len() <= HIGH_WATER);
        assert_eq!(buffer.end_offset(), i + 1);
    }
    assert_eq!(buffer.len(), 10000);
    assert_eq!(buffer.base(), 15000);
}

#[test]
fn poll_resumes_across_an_eviction() {
    let mut buffer = filled(HIGH_WATER);
    let (_, seen) = buffer.read_from(0);
    assert_eq!(seen, 10000);
    buffer.push("a".to_string());
    buffer.push("b".to_string());
    let (lines, next) = buffer.read_from(seen);
    assert_eq!(lines, vec!["a".to_string(), "b".to_string()]);
    assert_eq!(next, 10002);
}

#[test]
fn poll_below_the_base_starts_at_the_base() {
    let buffer = filled(HIGH_WATER + 1);
    let (lines, next) = buffer.read_from(500);
    assert_eq!(lines.len(), 9001);
    assert_eq!(lines[0], "line 1000");
    assert_eq!(next, 10001);
    let (lines, _) = buffer.read_from(1001);
    assert_eq!(lines.len(), 9000);
    assert_eq!(lines[0], "line 1001");
}
