use bluemap_renderer::logs::{is_fatal_log_line, push_line, MAX_LOG_LINES};
use bluemap_renderer::progress::parse_progress;
use std::collections::VecDeque;

#[test]
fn fatal_lines_are_recognised() {
    assert!(is_fatal_log_line("[ERROR] something broke"));
    assert!(is_fatal_log_line("[Render Thread ERROR] something broke"));
    assert!(!is_fatal_log_line("[main/ERROR] something broke"));
    assert!(is_fatal_log_line("Exception in thread \"main\" java.lang.RuntimeException"));
    assert!(is_fatal_log_line("FATAL: out of memory"));
    assert!(!is_fatal_log_line("[INFO] all fine"));
    assert!(!is_fatal_log_line("[ERROR] Failed to load resource: foo.png"));
}

#[test]
fn progress_lines_are_parsed() {
    let p = parse_progress("[INFO] updating map 'overworld': 42.5% (ETA: 3:10)").unwrap();
    assert_eq!(p.map, "overworld");
    assert_eq!(p.percent, "42.5");
    assert_eq!(p.eta, "3:10");
    let whole = parse_progress("updating map 'nether': 100% (ETA: 0:00)").unwrap();
    assert_eq!(whole.percent, "100");
}

#[test]
fn malformed_progress_lines_are_ignored() {
    assert!(parse_progress("updating map 'x': 1.2.3% (ETA: 1:00)").is_none());
    assert!(parse_progress("updating map 'x': ...% (ETA: 1:00)").is_none());
    assert!(parse_progress("updating map '': 5% (ETA: 1:00)").is_none());
    assert!(parse_progress("rendering").is_none());
}

#[test]
fn push_line_skips_direct_repeats() {
    let mut logs = VecDeque::new();
    push_line(&mut logs, "a".to_string());
    push_line(&mut logs, "a".to_string());
    push_line(&mut logs, "b".to_string());
    push_line(&mut logs, "a".to_string());
    assert_eq!(logs, VecDeque::from(vec!["a".to_string(), "b".to_string(), "a".to_string()]));
}

#[test]
fn push_line_keeps_the_newest_lines() {
    let mut logs = VecDeque::new();
    for i in 0..(MAX_LOG_LINES + 20) {
        push_line(&mut logs, format!("line {i}"));
    }
    assert_eq!(logs.len(), MAX_LOG_LINES);
    assert_eq!(logs.front().unwrap(), "line 20");
    assert_eq!(logs.back().unwrap(), &format!("line {}", MAX_LOG_LINES + 19));
}
