use openhash_node::log_store::{LogStore, MAX_LOG_LINES};

#[test]
fn new_log_is_empty() {
    let logs = LogStore::new();
    assert_eq!(logs.line_count(), 0);
    assert_eq!(logs.text(), "");
}

#[test]
fn append_entry_writes_timestamped_line() {
    let mut logs = LogStore::new();
    logs.append_entry("2024-01-01 00:00:00 UTC", "hello");
    assert_eq!(logs.text(), "[2024-01-01 00:00:00 UTC] hello\n");
    assert_eq!(logs.line_count(), 1);
}

#[test]
fn entries_keep_their_order() {
    let mut logs = LogStore::new();
    logs.append_entry("t1", "first");
    logs.append_entry("t2", "second");
    assert_eq!(logs.text(), "[t1] first\n[t2] second\n");
}

#[test]
fn entry_with_line_break_gives_two_lines() {
    let mut logs = LogStore::new();
    logs.append_entry("t", "a\nb");
    assert_eq!(logs.line_count(), 2);
    assert_eq!(logs.text(), "[t] a\nb\n");
}

#[test]
fn entry_ending_in_line_break_keeps_empty_line() {
    let mut logs = LogStore::new();
    logs.append_entry("t", "a\n");
    assert_eq!(logs.line_count(), 2);
    assert_eq!(logs.text(), "[t] a\n\n");
}

#[test]
fn empty_message_still_writes_a_line() {
    let mut logs = LogStore::new();
    logs.append_entry("t", "");
    assert_eq!(logs.text(), "[t] \n");
}

#[test]
fn log_keeps_most_recent_thousand_lines() {
    let mut logs = LogStore::new();
    for i in 0..1005 {
        logs.append_entry("t", &format!("{}", i));
        assert!(logs.line_count() <= MAX_LOG_LINES);
    }
    assert_eq!(logs.line_count(), 1000);
    let text = logs.text();
    assert!(text.starts_with("[t] 5\n[t] 6\n"));
    assert!(text.ends_with("[t] 1003\n[t] 1004\n"));
    assert_eq!(text.lines().count(), 1000);
}

#[test]
fn exactly_thousand_lines_are_all_kept() {
    let mut logs = LogStore::new();
    for i in 0..1000 {
        logs.append_entry("t", &format!("{}", i));
    }
    assert_eq!(logs.line_count(), 1000);
    assert!(logs.text().starts_with("[t] 0\n"));
}

#[test]
fn multi_line_entry_past_the_cap_drops_oldest() {
    let mut logs = LogStore::new();
    for i in 0..999 {
        logs.append_entry("t", &format!("{}", i));
    }
    logs.append_entry("t", "x\ny\nz");
    assert_eq!(logs.line_count(), 1000);
    let text = logs.text();
    assert!(text.starts_with("[t] 2\n"));
    assert!(text.ends_with("[t] 998\n[t] x\ny\nz\n"));
}

#[test]
fn clear_empties_log() {
    let mut logs = LogStore::new();
    logs.append_entry("t", "a");
    logs.clear();
    assert_eq!(logs.line_count(), 0);
    assert_eq!(logs.text(), "");
}

#[test]
fn add_log_entry_stamps_utc_time() {
    let mut logs = LogStore::new();
    logs.add_log_entry("node up");
    let text = logs.text();
    assert!(text.starts_with('['));
    assert!(text.ends_with(" UTC] node up\n"));
    // "[YYYY-MM-DD HH:MM:SS UTC] node up\n"
    assert_eq!(text.len(), 1 + 23 + 2 + 7 + 1);
    assert_eq!(&text[5..6], "-");
    assert_eq!(&text[14..15], ":");
}

#[test]
fn one_entry_after_clear_is_the_whole_text() {
    let mut logs = LogStore::new();
    logs.add_log_entry("a");
    logs.clear();
    logs.add_log_entry("m");
    let text = logs.text();
    assert_eq!(logs.line_count(), 1);
    assert!(text.starts_with('['));
    assert!(text.ends_with(" UTC] m\n"));
    assert_eq!(text.matches('\n').count(), 1);
}

#[test]
fn full_log_drops_only_the_oldest_line() {
    let mut logs = LogStore::new();
    for i in 0..1000 {
        logs.append_entry("t", &format!("{}", i));
    }
    logs.add_log_entry("newest");
    assert_eq!(logs.line_count(), 1000);
    let text = logs.text();
    assert!(text.starts_with("[t] 1\n"));
    assert!(text.ends_with(" UTC] newest\n"));
}
