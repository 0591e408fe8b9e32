use vstd::prelude::*;
use crate::error::LoggerError;
use crate::json::JsonWriter;
use crate::text::push_char;

verus! {

/// Writes rendered lines to plain-text log files.
#[derive(Debug)]
pub struct TextWriter;

/// The stages of appending one line to a file, in order: make sure the
/// directory exists, open the file for appending, write the bytes and flush.
#[derive(Debug, Clone, Copy, PartialEq, Eq, Structural)]
pub enum WriteStage {
    CreateDirectory,
    Open,
    Write,
}

/// The bytes appended for one rendered line: the line and one newline.
pub open spec fn payload_text(line: Seq<char>) -> Seq<char> {
    line.push('\n')
}

/// The failure reported when `stage` fails while appending a payload of
/// `payload_bytes` bytes to `path` in `directory`; `json` selects the
/// wording of the JSON writer.
pub open spec fn write_failure_spec(
    stage: WriteStage,
    json: bool,
    directory: Seq<char>,
    path: Seq<char>,
    payload_bytes: nat,
    e: LoggerError,
) -> bool {
    match stage {
        WriteStage::CreateDirectory => match e {
            LoggerError::DirectoryCreationFailed { path: p, reason } => p@ == directory && reason@ == (if json {
                "Failed to create parent directories for JSON file"@
            } else {
                "Failed to create parent directories"@
            }),
            _ => false,
        },
        WriteStage::Open => match e {
            LoggerError::FileCreationFailed { path: p, reason } => p@ == path && reason@ == (if json {
                "Failed to open JSON file for writing"@
            } else {
                "Failed to open file for writing"@
            }),
            _ => false,
        },
        WriteStage::Write => match e {
            LoggerError::DiskFull { path: p, bytes_attempted } => p@ == path && bytes_attempted == payload_bytes,
            _ => false,
        },
    }
}

/// Builds the bytes to append for a rendered line.
pub fn payload(line: &str) -> (r: String)
    ensures
        r@ == payload_text(line@),
{
    let mut out = String::from_str(line);
    push_char(&mut out, '\n');
    out
}

fn write_failure(stage: WriteStage, json: bool, directory: &str, path: &str, line: &str) -> (r: LoggerError)
    requires
        line.len() < usize::MAX,
    ensures
        write_failure_spec(stage, json, directory@, path@, (line.len() + 1) as nat, r),
{
    match stage {
        WriteStage::CreateDirectory => {
            let reason = if json {
                String::from_str("Failed to create parent directories for JSON file")
            } else {
                String::from_str("Failed to create parent directories")
            };
            LoggerError::DirectoryCreationFailed { path: String::from_str(directory), reason }
        },
        WriteStage::Open => {
            let reason = if json {
                String::from_str("Failed to open JSON file for writing")
            } else {
                String::from_str("Failed to open file for writing")
            };
            LoggerError::FileCreationFailed { path: String::from_str(path), reason }
        },
        WriteStage::Write => LoggerError::DiskFull { path: String::from_str(path), bytes_attempted: line.len() + 1 },
    }
}

impl TextWriter {
    pub fn new() -> (r: Self) {
        TextWriter
    }

    /// The failure this writer reports when `stage` fails while appending
    /// the rendered `line` and its newline (`line.len() + 1` bytes).
    pub fn failure(&self, stage: WriteStage, directory: &str, path: &str, line: &str) -> (r: LoggerError)
        requires
            line.len() < usize::MAX,
        ensures
            write_failure_spec(stage, false, directory@, path@, (line.len() + 1) as nat, r),
    {
        write_failure(stage, false, directory, path, line)
    }
}

impl JsonWriter {
    /// The failure this writer reports when `stage` fails while appending
    /// the JSON `line` and its newline (`line.len() + 1` bytes).
    pub fn failure(&self, stage: WriteStage, directory: &str, path: &str, line: &str) -> (r: LoggerError)
        requires
            line.len() < usize::MAX,
        ensures
            write_failure_spec(stage, true, directory@, path@, (line.len() + 1) as nat, r),
    {
        write_failure(stage, true, directory, path, line)
    }
}

} // verus!
