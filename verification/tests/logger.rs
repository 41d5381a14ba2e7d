use veritas_core::logger::MessageLogger;

#[test]
fn logged_lines_carry_a_timestamp_prefix_and_the_message() {
    let mut log = MessageLogger::default();
    log.log("hello there");
    let text = log.get_text();
    // "[HH:MM:SS] hello there"
    assert!(text.starts_with('['));
    assert!(text.ends_with("] hello there"));
    assert_eq!(text.len(), "[00:00:00] hello there".len());
}

#[test]
fn get_text_joins_lines_with_newlines() {
    let mut log = MessageLogger::default();
    assert_eq!(log.get_text(), "");
    log.push_line("one".to_string());
    assert_eq!(log.get_text(), "one");
    log.push_line("two".to_string());
    log.push_line("three".to_string());
    assert_eq!(log.get_text(), "one\ntwo\nthree");
}

#[test]
fn the_oldest_lines_fall_off_past_capacity() {
    let mut log = MessageLogger::default();
    for i in 0..1005 {
        log.push_line(format!("line {}", i));
    }
    let text = log.get_text();
    let lines: Vec<&str> = text.split('\n').collect();
    assert_eq!(lines.len(), 1000);
    assert_eq!(lines[0], "line 5");
    assert_eq!(lines[999], "line 1004");
}
