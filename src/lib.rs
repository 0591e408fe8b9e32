//! A logging core: filters records by level, renders them as text or JSON
//! lines, decides when and how the current log file is rotated, and turns
//! every internal failure into a line for a sidecar file. The file
//! operations themselves are performed by the caller.

pub mod config;
pub mod error;
pub mod format;
pub mod json;
pub mod logger;
pub mod path;
pub mod rotation;
pub mod text;
pub mod writer;

pub use config::{LogLevel, LoggerConfig, Pattern};
pub use error::LoggerError;
pub use format::{format_basic, format_custom, format_detailed, format_extended, LogInfo};
pub use json::JsonWriter;
pub use logger::{CallEvent, CallStep, ErrorReport, LogEntry, Logger};
pub use rotation::{FileOp, LogFile, RotationCheck, RotationResult, RotationStep, SizeBasedRotation};
pub use writer::{payload, TextWriter, WriteStage};
