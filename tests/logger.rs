use freedom_logger::{
    payload, CallEvent, CallStep, RotationResult, JsonWriter, LogInfo, LogLevel, Logger, LoggerConfig, LoggerError, Pattern, TextWriter, WriteStage,
};

fn logger(pattern: Pattern, level: Option<LogLevel>) -> Logger {
    let mut config = LoggerConfig::basic(pattern, "logs".to_string(), "app".to_string());
    config.log_level = level;
    Logger::new(config)
}

#[test]
fn new_logger_takes_rotation_settings_from_config() {
    let config = LoggerConfig::with_rotation(Pattern::Basic, "d".to_string(), "a".to_string(), LogLevel::Info, 1234, 7);
    let logger = Logger::new(config);
    assert_eq!(logger.rotation().max_file_size, 1234);
    assert_eq!(logger.rotation().max_backup_files, 7);
}

#[test]
fn filtered_call_yields_nothing() {
    let logger = logger(Pattern::Basic, Some(LogLevel::Warning));
    assert!(logger.info("hidden", "main.rs", 1, "main").is_none());
    assert!(logger.debug("hidden", "main.rs", 1, "main").is_none());
    assert!(logger.trace("hidden", "main.rs", 1, "main").is_none());
    assert!(logger.warning("shown", "main.rs", 1, "main").is_some());
    assert!(logger.error("shown", "main.rs", 1, "main").is_some());
}

#[test]
fn basic_entry_goes_to_log_file() {
    let logger = logger(Pattern::Basic, None);
    let entry = logger.info("Test info message", "main.rs", 10, "main").unwrap();
    assert_eq!(entry.path, "logs/app.log");
    assert_eq!(entry.line, format!("[{}] INFO: Test info message", entry.timestamp));
    assert_eq!(entry.payload, format!("[{}] INFO: Test info message\n", entry.timestamp));
    assert!(!entry.timestamp.contains('\n'));
    assert!(!entry.timestamp.is_empty());
    assert_eq!(entry.file.extension, "log");
}

#[test]
fn detailed_entry_carries_location() {
    let logger = logger(Pattern::Detailed, None);
    let entry = logger.log(LogLevel::Warning, "careful", "src/db.rs", 77, "worker").unwrap();
    assert_eq!(entry.payload, format!("[{}] [src/db.rs:77] WARNING: careful\n", entry.timestamp));
}

#[test]
fn json_entry_goes_to_json_file() {
    let logger = logger(Pattern::Json, None);
    let entry = logger.error("boom", "a.rs", 3, "main").unwrap();
    assert_eq!(entry.path, "logs/app.json");
    assert_eq!(
        entry.payload,
        format!(
            "{{\"timestamp\":\"{}\",\"level\":\"ERROR\",\"message\":\"boom\",\"file\":\"a.rs\",\"line\":3,\"thread\":\"main\"}}\n",
            entry.timestamp
        )
    );
}

#[test]
fn render_entry_uses_configured_pattern() {
    let info = LogInfo::new("m", LogLevel::Info, "2025-09-06 15:30:45");
    assert_eq!(logger(Pattern::Basic, None).render_entry(&info), "[2025-09-06 15:30:45] INFO: m");
    assert_eq!(
        logger(Pattern::Custom("{level}: {message}".to_string()), None).render_entry(&info),
        "INFO: m"
    );
    assert_eq!(
        logger(Pattern::Json, None).render_entry(&info),
        JsonWriter::new().format_as_json(&info)
    );
    let entry = logger(Pattern::Basic, None).write_log_entry(&info);
    assert_eq!(entry.payload, "[2025-09-06 15:30:45] INFO: m\n");
    assert_eq!(entry.timestamp, "2025-09-06 15:30:45");
}

#[test]
fn error_report_goes_to_sidecar_file() {
    let logger = logger(Pattern::Basic, None);
    let error = LoggerError::WritePermissionDenied { path: "logs/app.log".to_string() };
    let report = logger.error_report(&error, "2025-09-06 15:30:45");
    assert_eq!(report.path, "logs/logger_errors.log");
    assert_eq!(
        report.payload,
        "[2025-09-06 15:30:45] Logger Error: Permission denied writing to 'logs/app.log'\n"
    );
    let report = logger.handle_error(&error);
    assert_eq!(report.payload, format!("[{}] Logger Error: Permission denied writing to 'logs/app.log'\n", report.timestamp));
}

#[test]
fn broken_lock_failure() {
    assert_eq!(
        Logger::lock_failure(),
        LoggerError::RotationFailed {
            current_file: "mutex".to_string(),
            backup_file: "poisoned".to_string(),
            reason: "Mutex poisoned during logging".to_string(),
        }
    );
}

#[test]
fn error_messages() {
    let e = LoggerError::FileCreationFailed { path: "p".to_string(), reason: "r".to_string() };
    assert_eq!(e.message(), "Failed to create log file 'p' : r");
    let e = LoggerError::DirectoryCreationFailed { path: "d".to_string(), reason: "r".to_string() };
    assert_eq!(e.message(), "Failed to create directory 'd': r");
    let e = LoggerError::DiskFull { path: "p".to_string(), bytes_attempted: 17 };
    assert_eq!(e.message(), "Disk full: could not write 17 bytes to 'p'");
    let e = LoggerError::RotationFailed {
        current_file: "a".to_string(),
        backup_file: "b".to_string(),
        reason: "r".to_string(),
    };
    assert_eq!(e.message(), "Log rotation failed: 'a' -> 'b': r");
    assert_eq!(e.log_line("ts"), "[ts] Logger Error: Log rotation failed: 'a' -> 'b': r");
}

#[test]
fn payload_ends_with_one_newline() {
    assert_eq!(payload("Test log message"), "Test log message\n");
    assert_eq!(payload(""), "\n");
}

#[test]
fn write_failures_by_stage() {
    let text = TextWriter::new();
    assert_eq!(
        text.failure(WriteStage::CreateDirectory, "logs", "logs/app.log", "abc"),
        LoggerError::DirectoryCreationFailed {
            path: "logs".to_string(),
            reason: "Failed to create parent directories".to_string(),
        }
    );
    assert_eq!(
        text.failure(WriteStage::Open, "logs", "logs/app.log", "abc"),
        LoggerError::FileCreationFailed {
            path: "logs/app.log".to_string(),
            reason: "Failed to open file for writing".to_string(),
        }
    );
    assert_eq!(
        text.failure(WriteStage::Write, "logs", "logs/app.log", "é"),
        LoggerError::DiskFull { path: "logs/app.log".to_string(), bytes_attempted: 3 }
    );
    let json = JsonWriter::new();
    assert_eq!(
        json.failure(WriteStage::Open, "logs", "logs/app.json", "{}"),
        LoggerError::FileCreationFailed {
            path: "logs/app.json".to_string(),
            reason: "Failed to open JSON file for writing".to_string(),
        }
    );
}

#[test]
fn entries_are_single_lines() {
    for pattern in [Pattern::Basic, Pattern::Detailed, Pattern::Extended, Pattern::Json] {
        let logger = logger(pattern, None);
        let first = logger.info("first", "a.rs", 1, "t1").unwrap();
        let second = logger.info("second", "b.rs", 2, "t2").unwrap();
        let file = format!("{}{}", first.payload, second.payload);
        let lines: Vec<&str> = file.split_terminator('\n').collect();
        assert_eq!(lines.len(), 2);
        assert!(lines[0].contains("first"));
        assert!(lines[1].contains("second"));
    }
    let json = logger(Pattern::Json, None);
    let entry = json.info("multi\nline", "a.rs", 1, "t").unwrap();
    assert_eq!(entry.payload.matches('\n').count(), 1);
    assert!(entry.payload.ends_with('\n'));
}

#[test]
fn disk_full_counts_line_and_newline() {
    let json = JsonWriter::new();
    let line = "{\"message\":\"x\"}";
    assert_eq!(
        json.failure(WriteStage::Write, "logs", "logs/app.json", line),
        LoggerError::DiskFull { path: "logs/app.json".to_string(), bytes_attempted: line.len() + 1 }
    );
    assert_eq!(
        TextWriter::new().failure(WriteStage::Write, "d", "d/a.log", ""),
        LoggerError::DiskFull { path: "d/a.log".to_string(), bytes_attempted: 1 }
    );
}

#[test]
fn failure_policy_steps() {
    assert_eq!(Logger::next_step(CallEvent::Locked), CallStep { report: None, proceed: true });
    assert_eq!(
        Logger::next_step(CallEvent::LockBroken),
        CallStep { report: Some(Logger::lock_failure()), proceed: false }
    );
    assert_eq!(
        Logger::next_step(CallEvent::Rotated(RotationResult::NotNeeded)),
        CallStep { report: None, proceed: true }
    );
    assert_eq!(
        Logger::next_step(CallEvent::Rotated(RotationResult::Completed)),
        CallStep { report: None, proceed: true }
    );
    let failure = LoggerError::RotationFailed {
        current_file: "a.log".to_string(),
        backup_file: "a.1.log".to_string(),
        reason: "r".to_string(),
    };
    assert_eq!(
        Logger::next_step(CallEvent::Rotated(RotationResult::Failed(failure.clone()))),
        CallStep { report: Some(failure), proceed: true }
    );
    assert_eq!(Logger::next_step(CallEvent::Written(Ok(()))), CallStep { report: None, proceed: false });
    let failure = LoggerError::DiskFull { path: "a.log".to_string(), bytes_attempted: 4 };
    assert_eq!(
        Logger::next_step(CallEvent::Written(Err(failure.clone()))),
        CallStep { report: Some(failure), proceed: false }
    );
}

#[test]
fn config_validity() {
    let config = |p: Pattern| LoggerConfig::basic(p, "d".to_string(), "a".to_string());
    assert!(config(Pattern::Basic).is_valid());
    assert!(config(Pattern::Json).is_valid());
    assert!(config(Pattern::Custom("{level} {message}".to_string())).is_valid());
    assert!(!config(Pattern::Custom("{level} {timestamp}".to_string())).is_valid());
}
