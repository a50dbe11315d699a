//! Where the program's diagnostics go.
//!
//! This module holds the configuration only. Installing a subscriber writes
//! to the terminal and to the disk, and is left to the program.

use vstd::prelude::*;

verus! {

/// The name that every log file starts with.
pub const LOG_PREFIX: &'static str = "sentinel-rs";

/// The most verbose level that the subscriber itself lets through, whatever
/// the configuration. Each destination then applies a threshold of its own.
pub const BASE_LEVEL: Severity = Severity::Trace;

/// How verbose a record is, or how verbose a destination lets records be.
///
/// The levels are listed from the most verbose to the least. A destination
/// with threshold `L` takes the records at `L` and at every level listed
/// after `L`.
#[derive(Clone, Copy, Debug, PartialEq, Eq, Structural)]
pub enum Severity {
    Trace,
    Debug,
    Info,
    Warn,
    Error,
}

/// Where log records go, and the threshold of each destination.
#[derive(Clone, Copy)]
pub enum LogConfig<'src> {
    /// Records go to standard output.
    Stdout { level: Severity },
    /// Records go to a file in `log_directory` that is replaced every day.
    File { level: Severity, log_directory: &'src str },
    /// Records go to both, each with a threshold of its own.
    Combined { stdout_level: Severity, file_level: Severity, log_directory: &'src str },
}

impl<'src> Default for LogConfig<'src> {
    /// Both destinations: standard output from `Info` on, the file from
    /// `Trace` on, in the directory `logs`.
    fn default() -> (config: Self)
        ensures
            config matches LogConfig::Combined { stdout_level, file_level, log_directory }
                && stdout_level == Severity::Info && file_level == Severity::Trace
                && log_directory@ == "logs"@,
    {
        LogConfig::Combined {
            stdout_level: Severity::Info,
            file_level: Severity::Trace,
            log_directory: "logs",
        }
    }
}

} // verus!
