use vstd::prelude::*;
use crate::config::{passes, LogLevel, LoggerConfig, Pattern};
use crate::error::{error_log_text, is_rotation_failure, LoggerError};
use crate::format::{lemma_pattern_text_single_line, pattern_text, record_is_single_line, LogInfo, LogRecord};
use crate::json::{json_text, lemma_json_entry_is_one_line, JsonWriter};
use crate::path::{join, join_path};
use crate::rotation::{LogFile, RotationResult, SizeBasedRotation};
use crate::text::{is_one_line, is_single_line};
use crate::writer::{payload, payload_text, TextWriter};

verus! {

/// Relies on `SystemTime::now` and `duration_since(UNIX_EPOCH)`: whole
/// seconds since the Unix epoch, or `None` when the clock reads before the
/// epoch (the error of `duration_since`) or the count does not fit in `i64`.
#[verifier::external_body]
fn seconds_since_epoch() -> (r: Option<i64>)
    ensures
        r matches Some(s) ==> s >= 0,
{
    match std::time::SystemTime::now().duration_since(std::time::UNIX_EPOCH) {
        Ok(elapsed) => i64::try_from(elapsed.as_secs()).ok(),
        Err(_) => None,
    }
}

/// Relies on chrono's `DateTime::from_timestamp` (`None` outside chrono's
/// range), `with_timezone(&Local)` and `format("%Y-%m-%d %H:%M:%S")`. Those
/// format items write only digits, a sign, `-`, ` ` and `:`, so the text is
/// one line. The conversion to local time reads the system's time-zone data
/// and falls back to UTC when there is none; chrono offers no call that
/// reports a failed lookup in data it did load instead of panicking
/// (`Local::offset_from_utc_datetime` unwraps it), so that case remains.
#[verifier::external_body]
fn local_timestamp(seconds: i64) -> (r: Option<String>)
    ensures
        r matches Some(t) ==> is_single_line(t@),
{
    chrono::DateTime::from_timestamp(seconds, 0).map(
        |t| t.with_timezone(&chrono::Local).format("%Y-%m-%d %H:%M:%S").to_string(),
    )
}

/// Stamp used when the clock cannot be read or formatted.
pub open spec fn unknown_time() -> Seq<char> {
    "unknown time"@
}

/// The local wall-clock time as `YYYY-MM-DD HH:MM:SS`, or `unknown time`
/// when the clock reads before the epoch or out of range; one line either way.
fn current_timestamp() -> (r: String)
    ensures
        is_single_line(r@),
{
    let fallback = String::from_str("unknown time");
    proof {
        reveal_strlit("unknown time");
    }
    match seconds_since_epoch() {
        Some(seconds) => match local_timestamp(seconds) {
            Some(text) => text,
            None => fallback,
        },
        None => fallback,
    }
}

/// Name of the sidecar file that records the logger's own failures.
pub open spec fn error_file_name() -> Seq<char> {
    "logger_errors.log"@
}

/// Decides, for each logging call, whether it is written, where and as
/// which bytes; the caller performs the file operations.
#[derive(Debug)]
pub struct Logger {
    config: LoggerConfig,
    text_writer: TextWriter,
    json_writer: JsonWriter,
    rotation: SizeBasedRotation,
}

/// What one logging call appends, and where.
#[derive(Debug, Clone)]
pub struct LogEntry {
    /// The current log file.
    pub file: LogFile,
    /// Full path of the current log file.
    pub path: String,
    /// The rendered record.
    pub line: String,
    /// The rendered record followed by one newline.
    pub payload: String,
    /// The timestamp the record carries.
    pub timestamp: String,
}

/// A line for the sidecar file.
#[derive(Debug, Clone)]
pub struct ErrorReport {
    /// Full path of the sidecar file.
    pub path: String,
    /// `[timestamp] Logger Error: text` and one newline.
    pub payload: String,
    /// The timestamp the line carries.
    pub timestamp: String,
}

/// What happened at one stage of a logging call that passed the level filter.
#[derive(Debug, PartialEq, Eq)]
pub enum CallEvent {
    /// The exclusive-access guard was taken.
    Locked,
    /// The guard was found broken by an earlier holder.
    LockBroken,
    /// The rotation check ended.
    Rotated(RotationResult),
    /// The append ended.
    Written(Result<(), LoggerError>),
}

/// What the caller does after an event.
#[derive(Debug, Clone, PartialEq, Eq)]
pub struct CallStep {
    /// A failure to record in the sidecar file.
    pub report: Option<LoggerError>,
    /// Whether the call goes on to its next stage.
    pub proceed: bool,
}

/// The failure policy of a call: a broken guard is reported and the call
/// dropped; a failed rotation is reported and the write still happens; a
/// failed write is reported; the call ends after the write.
pub open spec fn is_next_step(event: CallEvent, step: CallStep) -> bool {
    match event {
        CallEvent::Locked => step.report.is_none() && step.proceed,
        CallEvent::LockBroken => !step.proceed && (step.report matches Some(e) && is_rotation_failure(
            e,
            "mutex"@,
            "poisoned"@,
            "Mutex poisoned during logging"@,
        )),
        CallEvent::Rotated(result) => step.proceed && match result {
            RotationResult::Failed(e) => step.report == Some(e),
            _ => step.report.is_none(),
        },
        CallEvent::Written(result) => !step.proceed && match result {
            Err(e) => step.report == Some(e),
            Ok(_) => step.report.is_none(),
        },
    }
}

/// Whether an entry's texts keep it to one line: always for the JSON
/// pattern, else when message, file, thread and a custom template hold no newline.
pub open spec fn one_line_inputs(pattern: Pattern, message: Seq<char>, file: Seq<char>, thread: Seq<char>) -> bool {
    ||| pattern is Json
    ||| {
        &&& is_single_line(message)
        &&& is_single_line(file)
        &&& is_single_line(thread)
        &&& pattern matches Pattern::Custom(t) ==> is_single_line(t@)
    }
}

/// The record of a call made at `file:line` on thread `thread`.
pub open spec fn call_record(
    level: LogLevel,
    message: Seq<char>,
    timestamp: Seq<char>,
    file: Seq<char>,
    line: u32,
    thread: Seq<char>,
) -> LogRecord {
    LogRecord { message, level, timestamp, file: Some(file), line: Some(line), thread: Some(thread) }
}

impl Logger {
    /// The rotation settings come from the configuration.
    #[verifier::type_invariant]
    spec fn rotation_follows_config(self) -> bool {
        &&& self.rotation.max_file_size == self.config.max_file_size
        &&& self.rotation.max_backup_files == self.config.max_backup_files
    }

    /// The configuration this logger was built with; it never changes.
    pub closed spec fn settings(self) -> LoggerConfig {
        self.config
    }

    /// The current log file of this configuration.
    pub open spec fn is_log_file(self, f: LogFile) -> bool {
        &&& f.directory@ == self.settings().file_path@
        &&& f.stem@ == self.settings().file_name@
        &&& f.extension@ == self.settings().pattern.extension()
    }

    /// The text of a record: the JSON object for the JSON pattern, the
    /// pattern's line otherwise.
    pub open spec fn entry_text(self, record: LogRecord) -> Seq<char> {
        match self.settings().pattern {
            Pattern::Json => json_text(record),
            _ => pattern_text(self.settings().pattern, record),
        }
    }

    /// `e` appends `record` to the current log file.
    pub open spec fn is_entry(self, e: LogEntry, record: LogRecord) -> bool {
        &&& self.is_log_file(e.file)
        &&& e.path@ == self.settings().log_file_path()
        &&& e.line@ == self.entry_text(record)
        &&& e.payload@ == payload_text(e.line@)
        &&& e.timestamp@ == record.timestamp
    }

    /// What a call returns: nothing when the level is filtered out, else the
    /// entry of the call's record stamped with the returned timestamp, which
    /// is one line when its inputs keep it to one.
    pub open spec fn is_call_result(
        self,
        r: Option<LogEntry>,
        level: LogLevel,
        message: Seq<char>,
        file: Seq<char>,
        line: u32,
        thread: Seq<char>,
    ) -> bool {
        &&& r.is_none() <==> !passes(level, self.settings().log_level)
        &&& r matches Some(e) ==> self.is_entry(e, call_record(level, message, e.timestamp@, file, line, thread))
        &&& r matches Some(e) ==> (one_line_inputs(self.settings().pattern, message, file, thread) ==> is_one_line(
            e.payload@,
        ))
    }

    pub fn new(config: LoggerConfig) -> (r: Self)
        ensures
            r.settings() == config,
    {
        let rotation = SizeBasedRotation::new(config.max_file_size, config.max_backup_files);
        Logger { config, text_writer: TextWriter::new(), json_writer: JsonWriter::new(), rotation }
    }

    pub fn config(&self) -> (r: &LoggerConfig)
        ensures
            *r == self.settings(),
    {
        &self.config
    }

    /// The rotation engine, set up with the configured size and backup count.
    pub fn rotation(&self) -> (r: SizeBasedRotation)
        ensures
            r.max_file_size == self.settings().max_file_size,
            r.max_backup_files == self.settings().max_backup_files,
    {
        proof {
            use_type_invariant(self);
        }
        self.rotation
    }

    pub fn text_writer(&self) -> (r: &TextWriter) {
        &self.text_writer
    }

    pub fn json_writer(&self) -> (r: &JsonWriter) {
        &self.json_writer
    }

    /// The current log file: `.json` for the JSON pattern, `.log` otherwise.
    pub fn log_file(&self) -> (r: LogFile)
        ensures
            self.is_log_file(r),
            r.current_path() == self.settings().log_file_path(),
    {
        LogFile {
            directory: self.config.file_path.clone(),
            stem: self.config.file_name.clone(),
            extension: String::from_str(self.config.pattern.extension_str()),
        }
    }

    /// Renders a record with the JSON encoder or with the configured pattern.
    pub fn render_entry(&self, info: &LogInfo) -> (r: String)
        ensures
            r@ == self.entry_text(info@),
    {
        match &self.config.pattern {
            Pattern::Json => self.json_writer.format_as_json(info),
            p => p.format(info),
        }
    }

    /// The entry that appends `info` to the current log file.
    pub fn write_log_entry(&self, info: &LogInfo) -> (r: LogEntry)
        ensures
            self.is_entry(r, info@),
    {
        let file = self.log_file();
        let path = file.current();
        let line = self.render_entry(info);
        let payload = payload(line.as_str());
        LogEntry { file, path, line, payload, timestamp: String::from_str(info.timestamp) }
    }

    /// One logging call made at `file:line` on thread `thread`: filtered by
    /// level, then stamped with the current time.
    pub fn log(&self, level: LogLevel, message: &str, file: &str, line: u32, thread: &str) -> (r: Option<LogEntry>)
        ensures
            self.is_call_result(r, level, message@, file@, line, thread@),
    {
        if !self.config.should_log_level(level) {
            return None;
        }
        let timestamp = current_timestamp();
        let info = LogInfo::new(message, level, timestamp.as_str()).with_location(file, line).with_thread(thread);
        let entry = self.write_log_entry(&info);
        proof {
            let record = call_record(level, message@, entry.timestamp@, file@, line, thread@);
            if one_line_inputs(self.settings().pattern, message@, file@, thread@) {
                lemma_entry_is_one_line(*self, record);
            }
        }
        Some(entry)
    }

    /// A call at level `Error`.
    pub fn error(&self, message: &str, file: &str, line: u32, thread: &str) -> (r: Option<LogEntry>)
        ensures
            self.is_call_result(r, LogLevel::Error, message@, file@, line, thread@),
    {
        self.log(LogLevel::Error, message, file, line, thread)
    }

    /// A call at level `Warning`.
    pub fn warning(&self, message: &str, file: &str, line: u32, thread: &str) -> (r: Option<LogEntry>)
        ensures
            self.is_call_result(r, LogLevel::Warning, message@, file@, line, thread@),
    {
        self.log(LogLevel::Warning, message, file, line, thread)
    }

    /// A call at level `Info`.
    pub fn info(&self, message: &str, file: &str, line: u32, thread: &str) -> (r: Option<LogEntry>)
        ensures
            self.is_call_result(r, LogLevel::Info, message@, file@, line, thread@),
    {
        self.log(LogLevel::Info, message, file, line, thread)
    }

    /// A call at level `Debug`.
    pub fn debug(&self, message: &str, file: &str, line: u32, thread: &str) -> (r: Option<LogEntry>)
        ensures
            self.is_call_result(r, LogLevel::Debug, message@, file@, line, thread@),
    {
        self.log(LogLevel::Debug, message, file, line, thread)
    }

    /// A call at level `Trace`.
    pub fn trace(&self, message: &str, file: &str, line: u32, thread: &str) -> (r: Option<LogEntry>)
        ensures
            self.is_call_result(r, LogLevel::Trace, message@, file@, line, thread@),
    {
        self.log(LogLevel::Trace, message, file, line, thread)
    }

    /// The sidecar line for `error`, stamped with `timestamp`.
    pub fn error_report(&self, error: &LoggerError, timestamp: &str) -> (r: ErrorReport)
        ensures
            r.path@ == join_path(self.settings().file_path@, error_file_name()),
            r.payload@ == payload_text(error_log_text(timestamp@, *error)),
            r.timestamp@ == timestamp@,
    {
        let path = join(self.config.file_path.as_str(), "logger_errors.log");
        let line = error.log_line(timestamp);
        ErrorReport { path, payload: payload(line.as_str()), timestamp: String::from_str(timestamp) }
    }

    /// The sidecar line for `error`, stamped with the current time.
    pub fn handle_error(&self, error: &LoggerError) -> (r: ErrorReport)
        ensures
            r.path@ == join_path(self.settings().file_path@, error_file_name()),
            r.payload@ == payload_text(error_log_text(r.timestamp@, *error)),
    {
        let timestamp = current_timestamp();
        self.error_report(error, timestamp.as_str())
    }

    /// The failure recorded when the exclusive-access guard is found broken;
    /// that call then writes nothing.
    pub fn lock_failure() -> (r: LoggerError)
        ensures
            is_rotation_failure(r, "mutex"@, "poisoned"@, "Mutex poisoned during logging"@),
    {
        LoggerError::RotationFailed {
            current_file: String::from_str("mutex"),
            backup_file: String::from_str("poisoned"),
            reason: String::from_str("Mutex poisoned during logging"),
        }
    }

    /// Applies the failure policy to one event of a call.
    pub fn next_step(event: CallEvent) -> (r: CallStep)
        ensures
            is_next_step(event, r),
    {
        match event {
            CallEvent::Locked => CallStep { report: None, proceed: true },
            CallEvent::LockBroken => CallStep { report: Some(Self::lock_failure()), proceed: false },
            CallEvent::Rotated(result) => match result {
                RotationResult::Failed(e) => CallStep { report: Some(e), proceed: true },
                _ => CallStep { report: None, proceed: true },
            },
            CallEvent::Written(result) => match result {
                Err(e) => CallStep { report: Some(e), proceed: false },
                Ok(_) => CallStep { report: None, proceed: false },
            },
        }
    }
}


/// Every entry is exactly one line, ended by its only newline: always for
/// the JSON pattern, and for the text patterns when the record's texts (and
/// a custom template) hold no newline. So appending whole entries one after
/// another never splits or merges lines.
pub proof fn lemma_entry_is_one_line(logger: Logger, record: LogRecord)
    requires
        logger.settings().pattern is Json || (record_is_single_line(record) && (logger.settings().pattern matches Pattern::Custom(
            t,
        ) ==> is_single_line(t@))),
    ensures
        is_one_line(payload_text(logger.entry_text(record))),
{
    let text = logger.entry_text(record);
    if logger.settings().pattern is Json {
        lemma_json_entry_is_one_line(record);
    } else {
        lemma_pattern_text_single_line(logger.settings().pattern, record);
    }
    assert(payload_text(text).drop_last() =~= text);
}

} // verus!
