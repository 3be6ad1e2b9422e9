//! The configuration options for logging.
//!
//! `Logging` is a plain value for callers to fill in and read. Nothing here
//! opens a file or writes a line.

use vstd::prelude::*;

verus! {

/// How severe a log line is, from the least severe to the most.
pub enum LogLevel {
    Debug,
    Info,
    Warn,
    Error,
}

/// Where log lines are to go. `File` names a path; it is a tag only.
pub enum LogOutput {
    Stdout,
    Stderr,
    File(String),
}

/// Whether to log, from which level on, and where to.
pub struct Logging {
    pub enabled: bool,
    pub level: LogLevel,
    pub destination: LogOutput,
}

impl Logging {
    /// The default configuration: logging switched off, level `Info`,
    /// destination standard output.
    pub fn new() -> (config: Self)
        ensures
            config == (Logging {
                enabled: false,
                level: LogLevel::Info,
                destination: LogOutput::Stdout,
            }),
    {
        Self { enabled: false, level: LogLevel::Info, destination: LogOutput::Stdout }
    }
}

} // verus!
