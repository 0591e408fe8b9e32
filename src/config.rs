use vstd::prelude::*;
use crate::path::{join, join_path};
use crate::text::{append_str, contains, contains_str};

verus! {

/// Severity of a log record, from the most severe to the least severe.
#[derive(Debug, Clone, Copy, PartialEq, Eq, Structural, PartialOrd, Ord, Hash)]
pub enum LogLevel {
    Error,
    Warning,
    Info,
    Debug,
    Trace,
}

impl LogLevel {
    /// Numeric rank: a lower rank is a more severe level.
    pub open spec fn rank(self) -> nat {
        match self {
            LogLevel::Error => 1,
            LogLevel::Warning => 2,
            LogLevel::Info => 3,
            LogLevel::Debug => 4,
            LogLevel::Trace => 5,
        }
    }

    /// Upper-case name used in rendered output.
    pub open spec fn name(self) -> Seq<char> {
        match self {
            LogLevel::Error => "ERROR"@,
            LogLevel::Warning => "WARNING"@,
            LogLevel::Info => "INFO"@,
            LogLevel::Debug => "DEBUG"@,
            LogLevel::Trace => "TRACE"@,
        }
    }

    pub fn as_str(&self) -> (r: &'static str)
        ensures
            r@ == self.name(),
    {
        match self {
            LogLevel::Error => "ERROR",
            LogLevel::Warning => "WARNING",
            LogLevel::Info => "INFO",
            LogLevel::Debug => "DEBUG",
            LogLevel::Trace => "TRACE",
        }
    }

    fn rank_value(&self) -> (r: u8)
        ensures
            r == self.rank(),
    {
        match self {
            LogLevel::Error => 1,
            LogLevel::Warning => 2,
            LogLevel::Info => 3,
            LogLevel::Debug => 4,
            LogLevel::Trace => 5,
        }
    }

    /// Whether a record of this level passes a configured minimum level.
    pub fn should_log(&self, configured_level: LogLevel) -> (r: bool)
        ensures
            r == (self.rank() <= configured_level.rank()),
    {
        self.rank_value() <= configured_level.rank_value()
    }
}

/// The placeholder that every custom template must hold.
pub open spec fn message_placeholder() -> Seq<char> {
    "{message}"@
}

/// How records are rendered.
#[derive(Debug, Clone, PartialEq, Eq)]
pub enum Pattern {
    Basic,
    Detailed,
    Extended,
    Json,
    Custom(String),
}

impl Pattern {
    /// The pattern used when none is chosen.
    pub fn default() -> (r: Pattern)
        ensures
            r == Pattern::Basic,
    {
        Pattern::Basic
    }

    /// Whether a custom template is acceptable: it must hold `{message}`.
    pub fn validate_custom(pattern: &str) -> (r: bool)
        ensures
            r == contains(pattern@, message_placeholder()),
    {
        contains_str(pattern, "{message}")
    }

    /// File extension of the current log file.
    pub open spec fn extension(self) -> Seq<char> {
        match self {
            Pattern::Json => "json"@,
            _ => "log"@,
        }
    }

    pub fn extension_str(&self) -> (r: &'static str)
        ensures
            r@ == self.extension(),
    {
        match self {
            Pattern::Json => "json",
            _ => "log",
        }
    }
}

/// Default size threshold of the current file, in bytes.
pub const DEFAULT_MAX_FILE_SIZE: u64 = 10485760;

/// Default number of backups kept.
pub const DEFAULT_MAX_BACKUP_FILES: u32 = 5;

/// Everything a logger needs; fixed once built.
#[derive(Debug, Clone)]
pub struct LoggerConfig {
    /// How records are rendered.
    pub pattern: Pattern,
    /// Directory that holds the log files.
    pub file_path: String,
    /// Base file name, without extension.
    pub file_name: String,
    /// Least severe level written; `None` writes every level.
    pub log_level: Option<LogLevel>,
    /// Size in bytes at which the current file is rotated.
    pub max_file_size: u64,
    /// Number of numbered backups kept.
    pub max_backup_files: u32,
}

/// Whether a level passes an optional minimum.
pub open spec fn passes(level: LogLevel, minimum: Option<LogLevel>) -> bool {
    match minimum {
        None => true,
        Some(m) => level.rank() <= m.rank(),
    }
}

/// Name of the current log file: base name, a dot, the extension.
pub open spec fn current_file_name(base: Seq<char>, pattern: Pattern) -> Seq<char> {
    base + "."@ + pattern.extension()
}

impl LoggerConfig {
    /// Configuration that writes every level, with the default rotation settings.
    pub fn basic(pattern: Pattern, file_path: String, file_name: String) -> (r: Self)
        ensures
            r.pattern == pattern,
            r.file_path == file_path,
            r.file_name == file_name,
            r.log_level.is_none(),
            r.max_file_size == DEFAULT_MAX_FILE_SIZE,
            r.max_backup_files == DEFAULT_MAX_BACKUP_FILES,
    {
        LoggerConfig {
            pattern,
            file_path,
            file_name,
            log_level: None,
            max_file_size: DEFAULT_MAX_FILE_SIZE,
            max_backup_files: DEFAULT_MAX_BACKUP_FILES,
        }
    }

    /// Configuration with a minimum level and the default rotation settings.
    pub fn with_level(pattern: Pattern, file_path: String, file_name: String, log_level: LogLevel) -> (r: Self)
        ensures
            r.pattern == pattern,
            r.file_path == file_path,
            r.file_name == file_name,
            r.log_level == Some(log_level),
            r.max_file_size == DEFAULT_MAX_FILE_SIZE,
            r.max_backup_files == DEFAULT_MAX_BACKUP_FILES,
    {
        LoggerConfig {
            pattern,
            file_path,
            file_name,
            log_level: Some(log_level),
            max_file_size: DEFAULT_MAX_FILE_SIZE,
            max_backup_files: DEFAULT_MAX_BACKUP_FILES,
        }
    }

    /// Configuration with a minimum level and explicit rotation settings.
    pub fn with_rotation(
        pattern: Pattern,
        file_path: String,
        file_name: String,
        log_level: LogLevel,
        max_file_size: u64,
        max_backup_files: u32,
    ) -> (r: Self)
        ensures
            r.pattern == pattern,
            r.file_path == file_path,
            r.file_name == file_name,
            r.log_level == Some(log_level),
            r.max_file_size == max_file_size,
            r.max_backup_files == max_backup_files,
    {
        LoggerConfig { pattern, file_path, file_name, log_level: Some(log_level), max_file_size, max_backup_files }
    }

    /// Whether the configuration may be used: a custom template must hold
    /// `{message}`; every other pattern is accepted.
    pub fn is_valid(&self) -> (r: bool)
        ensures
            r == (self.pattern matches Pattern::Custom(t) ==> contains(t@, message_placeholder())),
    {
        match &self.pattern {
            Pattern::Custom(t) => Pattern::validate_custom(t.as_str()),
            _ => true,
        }
    }

    /// Whether a record of `level` is written under this configuration.
    pub fn should_log_level(&self, level: LogLevel) -> (r: bool)
        ensures
            r == passes(level, self.log_level),
    {
        match self.log_level {
            None => true,
            Some(m) => level.should_log(m),
        }
    }

    /// Full path of the current log file.
    pub open spec fn log_file_path(self) -> Seq<char> {
        join_path(self.file_path@, current_file_name(self.file_name@, self.pattern))
    }

    /// Path of the current log file: `.json` for the JSON pattern, `.log` otherwise.
    pub fn get_log_file_path(&self) -> (r: String)
        ensures
            r@ == self.log_file_path(),
    {
        let mut name = self.file_name.clone();
        assert(name@ == self.file_name@);
        append_str(&mut name, ".");
        append_str(&mut name, self.pattern.extension_str());
        join(self.file_path.as_str(), name.as_str())
    }
}


/// Filtering is monotone: when a level passes a configured minimum, every
/// level at least as severe passes it too.
pub proof fn lemma_filter_monotone(s1: LogLevel, s2: LogLevel, minimum: Option<LogLevel>)
    requires
        s1.rank() <= s2.rank(),
        passes(s2, minimum),
    ensures
        passes(s1, minimum),
{
}

} // verus!
