use freedom_logger::{format_basic, format_custom, format_detailed, format_extended, LogInfo, LogLevel, Pattern};

#[test]
fn test_basic_formatting() {
    let info = LogInfo::new("Test message", LogLevel::Info, "2025-09-06 15:30:45");

    let result = format_basic(&info);
    assert_eq!(result, "[2025-09-06 15:30:45] INFO: Test message");
}

#[test]
fn basic_test_different_log_levels() {
    let timestamp = "2025-09-06 15:30:45";
    let message = "Test message";

    let error_info = LogInfo::new(message, LogLevel::Error, timestamp);
    assert_eq!(format_basic(&error_info), "[2025-09-06 15:30:45] ERROR: Test message");

    let debug_info = LogInfo::new(message, LogLevel::Debug, timestamp);
    assert_eq!(format_basic(&debug_info), "[2025-09-06 15:30:45] DEBUG: Test message");
}

#[test]
fn test_loginfo_builder() {
    let info = LogInfo::new("Test", LogLevel::Warning, "2025-09-06 15:30:45")
        .with_location("main.rs", 42)
        .with_thread("main");

    let result = format_basic(&info);
    assert_eq!(result, "[2025-09-06 15:30:45] WARNING: Test");
}

#[test]
fn test_detailed_formatting_with_full_location() {
    let info = LogInfo::new("Test message", LogLevel::Info, "2025-09-06 15:30:45").with_location("main.rs", 42);

    let result = format_detailed(&info);
    assert_eq!(result, "[2025-09-06 15:30:45] [main.rs:42] INFO: Test message");
}

#[test]
fn test_detailed_formatting_with_file_only() {
    let mut info = LogInfo::new("Test message", LogLevel::Warning, "2025-09-06 15:30:45");
    info.file = Some("utils.rs");

    let result = format_detailed(&info);
    assert_eq!(result, "[2025-09-06 15:30:45] [utils.rs] WARNING: Test message");
}

#[test]
fn test_detailed_formatting_fallback_to_basic() {
    let info = LogInfo::new("Test message", LogLevel::Error, "2025-09-06 15:30:45");

    let result = format_detailed(&info);
    assert_eq!(result, "[2025-09-06 15:30:45] ERROR: Test message");
}

#[test]
fn detailed_test_different_log_levels() {
    let info = LogInfo::new("Debug info", LogLevel::Debug, "2025-09-06 15:30:45").with_location("debug.rs", 123);

    let result = format_detailed(&info);
    assert_eq!(result, "[2025-09-06 15:30:45] [debug.rs:123] DEBUG: Debug info");
}

#[test]
fn detailed_without_location_equals_basic() {
    for level in [LogLevel::Error, LogLevel::Warning, LogLevel::Info, LogLevel::Debug, LogLevel::Trace] {
        let info = LogInfo::new("same text", level, "2024-01-02 03:04:05").with_thread("worker");
        assert_eq!(format_detailed(&info), format_basic(&info));
    }
}

#[test]
fn detailed_line_zero_and_large_line() {
    let info = LogInfo::new("m", LogLevel::Trace, "t").with_location("a.rs", 0);
    assert_eq!(format_detailed(&info), "[t] [a.rs:0] TRACE: m");
    let info = LogInfo::new("m", LogLevel::Trace, "t").with_location("a.rs", 4294967295);
    assert_eq!(format_detailed(&info), "[t] [a.rs:4294967295] TRACE: m");
}

#[test]
fn extended_adds_thread_after_location() {
    let info = LogInfo::new("hello", LogLevel::Info, "2025-09-06 15:30:45")
        .with_location("lib.rs", 7)
        .with_thread("main");
    assert_eq!(format_extended(&info), "[2025-09-06 15:30:45] [lib.rs:7] [main] INFO: hello");
    let bare = LogInfo::new("hello", LogLevel::Info, "2025-09-06 15:30:45");
    assert_eq!(format_extended(&bare), format_basic(&bare));
}

#[test]
fn custom_template_substitutes_placeholders() {
    let info = LogInfo::new("disk ok", LogLevel::Warning, "2025-09-06 15:30:45");
    assert_eq!(format_custom("{level} @ {timestamp} - {message}", &info), "WARNING @ 2025-09-06 15:30:45 - disk ok");
    assert_eq!(format_custom("{message}", &info), "disk ok");
}

#[test]
fn custom_template_keeps_unknown_placeholders() {
    let info = LogInfo::new("x", LogLevel::Info, "ts");
    assert_eq!(format_custom("{thread} {message} {mess", &info), "{thread} x {mess");
    assert_eq!(format_custom("", &info), "");
}

#[test]
fn custom_template_does_not_rescan_substituted_text() {
    let info = LogInfo::new("{level}", LogLevel::Error, "{message}");
    assert_eq!(format_custom("{timestamp}|{message}", &info), "{message}|{level}");
}

#[test]
fn pattern_format_dispatches_by_pattern() {
    let info = LogInfo::new("m", LogLevel::Info, "t").with_location("f.rs", 3).with_thread("th");
    assert_eq!(Pattern::Basic.format(&info), "[t] INFO: m");
    assert_eq!(Pattern::Detailed.format(&info), "[t] [f.rs:3] INFO: m");
    assert_eq!(Pattern::Extended.format(&info), "[t] [f.rs:3] [th] INFO: m");
    assert_eq!(Pattern::Custom("<{level}> {message}".to_string()).format(&info), "<INFO> m");
}
