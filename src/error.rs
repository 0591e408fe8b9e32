use vstd::prelude::*;
use crate::text::{append_str, decimal, push_char, push_decimal};

verus! {

/// An internal failure of the logger; none of these reaches the caller.
#[derive(Debug, Clone, PartialEq, Eq)]
pub enum LoggerError {
    /// The log file could not be created or opened.
    FileCreationFailed { path: String, reason: String },
    /// A directory on the way to the log file could not be created.
    DirectoryCreationFailed { path: String, reason: String },
    /// The log file exists but may not be written.
    WritePermissionDenied { path: String },
    /// Writing or flushing failed.
    DiskFull { path: String, bytes_attempted: usize },
    /// A rename or delete during rotation failed.
    RotationFailed { current_file: String, backup_file: String, reason: String },
}

/// `'text'`
pub open spec fn quoted(s: Seq<char>) -> Seq<char> {
    "'"@ + s + "'"@
}

/// The human-readable text of a failure.
pub open spec fn error_text(e: LoggerError) -> Seq<char> {
    match e {
        LoggerError::FileCreationFailed { path, reason } =>
            "Failed to create log file "@ + quoted(path@) + " : "@ + reason@,
        LoggerError::DirectoryCreationFailed { path, reason } =>
            "Failed to create directory "@ + quoted(path@) + ": "@ + reason@,
        LoggerError::WritePermissionDenied { path } =>
            "Permission denied writing to "@ + quoted(path@),
        LoggerError::DiskFull { path, bytes_attempted } =>
            "Disk full: could not write "@ + decimal(bytes_attempted as nat) + " bytes to "@ + quoted(path@),
        LoggerError::RotationFailed { current_file, backup_file, reason } =>
            "Log rotation failed: "@ + quoted(current_file@) + " -> "@ + quoted(backup_file@) + ": "@ + reason@,
    }
}

/// The sidecar line of a failure: `[timestamp] Logger Error: text`.
pub open spec fn error_log_text(timestamp: Seq<char>, e: LoggerError) -> Seq<char> {
    "["@ + timestamp + "] Logger Error: "@ + error_text(e)
}

/// Whether `e` is a rotation failure with exactly these three texts.
pub open spec fn is_rotation_failure(e: LoggerError, current: Seq<char>, backup: Seq<char>, reason: Seq<char>) -> bool {
    match e {
        LoggerError::RotationFailed { current_file, backup_file, reason: r } =>
            current_file@ == current && backup_file@ == backup && r@ == reason,
        _ => false,
    }
}

fn push_quoted(out: &mut String, s: &str)
    ensures
        final(out)@ == old(out)@ + quoted(s@),
{
    push_char(out, '\'');
    append_str(out, s);
    push_char(out, '\'');
    proof {
        reveal_strlit("'");
    }
    assert(final(out)@ =~= old(out)@ + quoted(s@));
}

impl LoggerError {
    /// The human-readable text of this failure.
    pub fn message(&self) -> (r: String)
        ensures
            r@ == error_text(*self),
    {
        let mut out = String::new();
        match self {
            LoggerError::FileCreationFailed { path, reason } => {
                append_str(&mut out, "Failed to create log file ");
                push_quoted(&mut out, path.as_str());
                append_str(&mut out, " : ");
                append_str(&mut out, reason.as_str());
            },
            LoggerError::DirectoryCreationFailed { path, reason } => {
                append_str(&mut out, "Failed to create directory ");
                push_quoted(&mut out, path.as_str());
                append_str(&mut out, ": ");
                append_str(&mut out, reason.as_str());
            },
            LoggerError::WritePermissionDenied { path } => {
                append_str(&mut out, "Permission denied writing to ");
                push_quoted(&mut out, path.as_str());
            },
            LoggerError::DiskFull { path, bytes_attempted } => {
                append_str(&mut out, "Disk full: could not write ");
                push_decimal(&mut out, *bytes_attempted as u64);
                append_str(&mut out, " bytes to ");
                push_quoted(&mut out, path.as_str());
            },
            LoggerError::RotationFailed { current_file, backup_file, reason } => {
                append_str(&mut out, "Log rotation failed: ");
                push_quoted(&mut out, current_file.as_str());
                append_str(&mut out, " -> ");
                push_quoted(&mut out, backup_file.as_str());
                append_str(&mut out, ": ");
                append_str(&mut out, reason.as_str());
            },
        }
        assert(out@ =~= error_text(*self));
        out
    }

    /// The line recorded in the sidecar file for this failure.
    pub fn log_line(&self, timestamp: &str) -> (r: String)
        ensures
            r@ == error_log_text(timestamp@, *self),
    {
        let mut out = String::new();
        push_char(&mut out, '[');
        append_str(&mut out, timestamp);
        append_str(&mut out, "] Logger Error: ");
        let text = self.message();
        append_str(&mut out, text.as_str());
        proof {
            reveal_strlit("[");
        }
        assert(out@ =~= error_log_text(timestamp@, *self));
        out
    }
}

} // verus!
