use freedom_logger::{JsonWriter, LogInfo, LogLevel};

#[test]
fn test_json_string_escaping() {
    let writer = JsonWriter::new();

    let result = writer.escape_json_string("Message with \"quotes\" and \n newline");
    assert_eq!(result, "Message with \\\"quotes\\\" and \\n newline");
}

#[test]
fn escaping_covers_backslash_return_and_tab() {
    let writer = JsonWriter::new();
    assert_eq!(writer.escape_json_string("a\\b\rc\td"), "a\\\\b\\rc\\td");
    assert_eq!(writer.escape_json_string(""), "");
    assert_eq!(writer.escape_json_string("plain é ✓"), "plain é ✓");
}

#[test]
fn json_record_without_location_has_null_fields() {
    let writer = JsonWriter::new();
    let info = LogInfo::new("Test message", LogLevel::Info, "2025-09-06 15:30:45");
    let line = writer.format_as_json(&info);
    assert!(line.contains("\"message\":\"Test message\""));
    assert!(line.contains("\"level\":\"INFO\""));
    assert!(line.contains("\"timestamp\":\"2025-09-06 15:30:45\""));
    assert!(line.contains("\"file\":null"));
    assert!(line.contains("\"line\":null"));
    assert!(line.contains("\"thread\":null"));
    assert_eq!(
        line,
        "{\"timestamp\":\"2025-09-06 15:30:45\",\"level\":\"INFO\",\"message\":\"Test message\",\"file\":null,\"line\":null,\"thread\":null}"
    );
}

#[test]
fn json_record_with_location_and_thread() {
    let writer = JsonWriter::new();
    let info = LogInfo::new("Detailed test", LogLevel::Debug, "2025-09-06 15:30:45")
        .with_location("test.rs", 42)
        .with_thread("main");
    let line = writer.format_as_json(&info);
    assert!(line.contains("\"file\":\"test.rs\""));
    assert!(line.contains("\"line\":42"));
    assert!(line.contains("\"thread\":\"main\""));
    assert!(!line.contains('\n'));
}

#[test]
fn json_record_escapes_every_string_field() {
    let writer = JsonWriter::new();
    let info = LogInfo::new("two\nlines", LogLevel::Error, "t\"s").with_location("c:\\x.rs", 1).with_thread("a\tb");
    assert_eq!(
        writer.format_as_json(&info),
        "{\"timestamp\":\"t\\\"s\",\"level\":\"ERROR\",\"message\":\"two\\nlines\",\"file\":\"c:\\\\x.rs\",\"line\":1,\"thread\":\"a\\tb\"}"
    );
}
