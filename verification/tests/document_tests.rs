use butler_logger::document::{compose_document, encode_entry, file_line, EncodedEntry};
use butler_logger::entry::LogEntry;
use butler_logger::property::{Properties, PropertyValue};
use butler_logger::timestamp::Timestamp;

fn bare(message: &str) -> LogEntry {
    LogEntry {
        timestamp: Timestamp::new(1_700_000_000, 123_000_000).unwrap(),
        level: "INFO".to_string(),
        message: message.to_string(),
        target: "app".to_string(),
        module: None,
        file: None,
        line: None,
        correlation_id: None,
        user_id: None,
        session_id: None,
        properties: Properties::new(),
        exception: None,
    }
}

fn full() -> LogEntry {
    let mut entry = bare("say \"hi\"\n");
    entry.module = Some("app::ui".to_string());
    entry.file = Some("src/main.rs".to_string());
    entry.line = Some(42);
    entry.correlation_id = Some("c-1".to_string());
    entry.user_id = Some("u-1".to_string());
    entry.session_id = Some("s-1".to_string());
    entry.properties.insert("k".to_string(), PropertyValue::parse("1").unwrap());
    entry.properties.insert("na\"me".to_string(), PropertyValue::parse("\"x\"").unwrap());
    entry.exception = Some("boom".to_string());
    entry
}

#[test]
fn document_names_every_field_in_order() {
    let fields = EncodedEntry {
        timestamp: "TS".to_string(),
        level: "LV".to_string(),
        message: "MS".to_string(),
        target: "TG".to_string(),
        module: Some("MO".to_string()),
        file: Some("FI".to_string()),
        line: Some(7),
        correlation_id: Some("CO".to_string()),
        user_id: Some("US".to_string()),
        session_id: Some("SE".to_string()),
        properties: vec![("K1".to_string(), "V1".to_string()), ("K2".to_string(), "V2".to_string())],
        exception: Some("EX".to_string()),
    };
    assert_eq!(
        compose_document(&fields),
        "{\"timestamp\":TS,\"level\":LV,\"message\":MS,\"target\":TG,\"module_path\":MO,\"file\":FI,\"line\":7,\"correlation_id\":CO,\"user_id\":US,\"session_id\":SE,\"properties\":{K1:V1,K2:V2},\"exception\":EX}"
    );
}

#[test]
fn absent_fields_are_null() {
    let fields = EncodedEntry {
        timestamp: "TS".to_string(),
        level: "LV".to_string(),
        message: "MS".to_string(),
        target: "TG".to_string(),
        module: None,
        file: None,
        line: None,
        correlation_id: None,
        user_id: None,
        session_id: None,
        properties: vec![],
        exception: None,
    };
    assert_eq!(
        compose_document(&fields),
        "{\"timestamp\":TS,\"level\":LV,\"message\":MS,\"target\":TG,\"module_path\":null,\"file\":null,\"line\":null,\"correlation_id\":null,\"user_id\":null,\"session_id\":null,\"properties\":{},\"exception\":null}"
    );
}

#[test]
fn encoding_quotes_and_escapes_every_text() {
    let fields = encode_entry(&full());
    assert_eq!(fields.timestamp, "\"2023-11-14T22:13:20.123Z\"");
    assert_eq!(fields.level, "\"INFO\"");
    assert_eq!(fields.message, "\"say \\\"hi\\\"\\n\"");
    assert_eq!(fields.target, "\"app\"");
    assert_eq!(fields.module.as_deref(), Some("\"app::ui\""));
    assert_eq!(fields.file.as_deref(), Some("\"src/main.rs\""));
    assert_eq!(fields.line, Some(42));
    assert_eq!(fields.correlation_id.as_deref(), Some("\"c-1\""));
    assert_eq!(fields.user_id.as_deref(), Some("\"u-1\""));
    assert_eq!(fields.session_id.as_deref(), Some("\"s-1\""));
    assert_eq!(
        fields.properties,
        vec![
            ("\"k\"".to_string(), "1".to_string()),
            ("\"na\\\"me\"".to_string(), "\"x\"".to_string())
        ]
    );
    assert_eq!(fields.exception.as_deref(), Some("\"boom\""));
}

#[test]
fn encoding_keeps_absent_fields_absent() {
    let fields = encode_entry(&bare("m"));
    assert_eq!(fields.module, None);
    assert_eq!(fields.file, None);
    assert_eq!(fields.line, None);
    assert_eq!(fields.correlation_id, None);
    assert_eq!(fields.user_id, None);
    assert_eq!(fields.session_id, None);
    assert!(fields.properties.is_empty());
    assert_eq!(fields.exception, None);
}

#[test]
fn file_line_is_one_document_and_a_line_feed() {
    let line = file_line(&full());
    assert_eq!(
        line,
        "{\"timestamp\":\"2023-11-14T22:13:20.123Z\",\"level\":\"INFO\",\"message\":\"say \\\"hi\\\"\\n\",\"target\":\"app\",\"module_path\":\"app::ui\",\"file\":\"src/main.rs\",\"line\":42,\"correlation_id\":\"c-1\",\"user_id\":\"u-1\",\"session_id\":\"s-1\",\"properties\":{\"k\":1,\"na\\\"me\":\"x\"},\"exception\":\"boom\"}\n"
    );
    assert_eq!(line.matches('\n').count(), 1);
    assert!(line.ends_with('\n'));
}

#[test]
fn file_line_is_a_json_object_with_the_fields_of_the_entry() {
    let line = file_line(&full());
    let parsed: serde_json::Value = serde_json::from_str(&line).unwrap();
    let object = parsed.as_object().unwrap();
    assert_eq!(object.len(), 12);
    assert_eq!(object["timestamp"], serde_json::Value::from("2023-11-14T22:13:20.123Z"));
    assert_eq!(object["level"], serde_json::Value::from("INFO"));
    assert_eq!(object["message"], serde_json::Value::from("say \"hi\"\n"));
    assert_eq!(object["target"], serde_json::Value::from("app"));
    assert_eq!(object["module_path"], serde_json::Value::from("app::ui"));
    assert_eq!(object["file"], serde_json::Value::from("src/main.rs"));
    assert_eq!(object["line"], serde_json::Value::from(42));
    assert_eq!(object["correlation_id"], serde_json::Value::from("c-1"));
    assert_eq!(object["user_id"], serde_json::Value::from("u-1"));
    assert_eq!(object["session_id"], serde_json::Value::from("s-1"));
    assert_eq!(object["properties"]["k"], serde_json::Value::from(1));
    assert_eq!(object["properties"]["na\"me"], serde_json::Value::from("x"));
    assert_eq!(object["exception"], serde_json::Value::from("boom"));
}

#[test]
fn bare_entry_has_nulls_and_an_empty_object() {
    assert_eq!(
        file_line(&bare("m")),
        "{\"timestamp\":\"2023-11-14T22:13:20.123Z\",\"level\":\"INFO\",\"message\":\"m\",\"target\":\"app\",\"module_path\":null,\"file\":null,\"line\":null,\"correlation_id\":null,\"user_id\":null,\"session_id\":null,\"properties\":{},\"exception\":null}\n"
    );
}

#[test]
fn control_characters_never_break_the_line() {
    let mut entry = bare("a\nb\rc\td\u{1}e");
    entry.target = "t\n".to_string();
    entry.properties.insert("k\n".to_string(), PropertyValue::parse("\"v\\n\"").unwrap());
    let line = file_line(&entry);
    assert_eq!(line.matches('\n').count(), 1);
    let parsed: serde_json::Value = serde_json::from_str(&line).unwrap();
    assert_eq!(parsed["message"], serde_json::Value::from("a\nb\rc\td\u{1}e"));
    assert_eq!(parsed["properties"]["k\n"], serde_json::Value::from("v\n"));
}
