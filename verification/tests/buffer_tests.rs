use butler_logger::buffer::LogBuffer;
use butler_logger::entry::LogEntry;
use butler_logger::property::Properties;
use butler_logger::timestamp::Timestamp;

fn entry(message: &str) -> LogEntry {
    LogEntry {
        timestamp: Timestamp::new(0, 0).unwrap(),
        level: "INFO".to_string(),
        message: message.to_string(),
        target: "test".to_string(),
        module: None,
        file: None,
        line: None,
        correlation_id: None,
        user_id: None,
        session_id: None,
        properties: Properties::new(),
        exception: None,
    }
}

fn messages(entries: &[LogEntry]) -> Vec<String> {
    entries.iter().map(|e| e.message.clone()).collect()
}

fn filled(capacity: usize, items: &[&str]) -> LogBuffer {
    let mut buffer = LogBuffer::new(capacity);
    for m in items {
        buffer.add_log(entry(m));
    }
    buffer
}

#[test]
fn new_buffer_is_empty() {
    let buffer = LogBuffer::new(1000);
    assert_eq!(buffer.len(), 0);
    assert!(buffer.is_empty());
    assert_eq!(buffer.max_size(), 1000);
    assert!(buffer.get_logs().is_empty());
}

#[test]
fn add_keeps_the_last_capacity_entries() {
    let mut buffer = LogBuffer::new(3);
    let all = ["a", "b", "c", "d", "e"];
    for (i, m) in all.iter().enumerate() {
        buffer.add_log(entry(m));
        assert!(buffer.len() <= 3);
        let from = (i + 1).saturating_sub(3);
        let expected: Vec<String> = all[from..=i].iter().map(|s| s.to_string()).collect();
        assert_eq!(messages(&buffer.get_logs()), expected);
    }
    assert_eq!(messages(&buffer.get_logs()), vec!["c", "d", "e"]);
    assert_eq!(buffer.len(), 3);
}

#[test]
fn add_below_capacity_keeps_everything_in_order() {
    let buffer = filled(5, &["a", "b"]);
    assert_eq!(messages(&buffer.get_logs()), vec!["a", "b"]);
    assert_eq!(buffer.len(), 2);
    assert!(!buffer.is_empty());
}

#[test]
fn one_insert_evicts_one_entry() {
    let mut buffer = filled(2, &["a", "b"]);
    buffer.add_log(entry("c"));
    assert_eq!(messages(&buffer.get_logs()), vec!["b", "c"]);
}

#[test]
fn capacity_zero_holds_nothing() {
    let buffer = filled(0, &["a", "b"]);
    assert_eq!(buffer.len(), 0);
    assert!(buffer.get_logs().is_empty());
    assert!(buffer.get_logs_recent(4).is_empty());
}

#[test]
fn capacity_one_holds_the_newest() {
    let buffer = filled(1, &["a", "b", "c"]);
    assert_eq!(messages(&buffer.get_logs()), vec!["c"]);
}

#[test]
fn get_recent_with_fewer_entries_returns_all() {
    let buffer = filled(10, &["a", "b", "c"]);
    assert_eq!(messages(&buffer.get_logs_recent(5)), vec!["a", "b", "c"]);
    assert_eq!(messages(&buffer.get_logs_recent(3)), vec!["a", "b", "c"]);
}

#[test]
fn get_recent_returns_the_last_n() {
    let buffer = filled(10, &["a", "b", "c", "d"]);
    assert_eq!(messages(&buffer.get_logs_recent(2)), vec!["c", "d"]);
    assert_eq!(messages(&buffer.get_logs_recent(1)), vec!["d"]);
    assert!(buffer.get_logs_recent(0).is_empty());
}

#[test]
fn get_recent_on_empty_buffer_is_empty() {
    let buffer = LogBuffer::new(4);
    assert!(buffer.get_logs_recent(3).is_empty());
}

#[test]
fn clear_empties_at_once() {
    let mut buffer = filled(3, &["a", "b", "c", "d"]);
    buffer.clear();
    assert_eq!(buffer.len(), 0);
    assert!(buffer.is_empty());
    assert!(buffer.get_logs().is_empty());
    assert_eq!(buffer.max_size(), 3);
    buffer.add_log(entry("e"));
    assert_eq!(messages(&buffer.get_logs()), vec!["e"]);
}

#[test]
fn snapshot_is_a_copy() {
    let mut buffer = filled(3, &["a", "b"]);
    let snapshot = buffer.get_logs();
    buffer.add_log(entry("c"));
    buffer.clear();
    assert_eq!(messages(&snapshot), vec!["a", "b"]);
}

#[test]
fn snapshot_keeps_every_field() {
    let mut properties = Properties::new();
    properties.insert(
        "k".to_string(),
        butler_logger::property::PropertyValue::parse("7").unwrap(),
    );
    let first = LogEntry {
        timestamp: Timestamp::new(12, 34).unwrap(),
        level: "WARN".to_string(),
        message: "m".to_string(),
        target: "t".to_string(),
        module: Some("mod".to_string()),
        file: Some("f.rs".to_string()),
        line: Some(9),
        correlation_id: Some("c".to_string()),
        user_id: Some("u".to_string()),
        session_id: Some("s".to_string()),
        properties,
        exception: Some("boom".to_string()),
    };
    let mut buffer = LogBuffer::new(2);
    buffer.add_log(first);
    let copy = &buffer.get_logs()[0];
    assert_eq!(copy.timestamp.secs(), 12);
    assert_eq!(copy.timestamp.nanos(), 34);
    assert_eq!(copy.level, "WARN");
    assert_eq!(copy.message, "m");
    assert_eq!(copy.target, "t");
    assert_eq!(copy.module.as_deref(), Some("mod"));
    assert_eq!(copy.file.as_deref(), Some("f.rs"));
    assert_eq!(copy.line, Some(9));
    assert_eq!(copy.correlation_id.as_deref(), Some("c"));
    assert_eq!(copy.user_id.as_deref(), Some("u"));
    assert_eq!(copy.session_id.as_deref(), Some("s"));
    assert_eq!(copy.properties.len(), 1);
    assert_eq!(copy.properties.get("k").unwrap().as_str(), "7");
    assert_eq!(copy.exception.as_deref(), Some("boom"));
}
