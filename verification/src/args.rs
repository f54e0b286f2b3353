//! The command line: what the user asked for, and how it sets up logging.

use vstd::prelude::*;
use crate::text::{owned, str_eq};

verus! {

/// What to run.
#[derive(Debug, Clone, Copy, PartialEq, Eq, Structural)]
pub enum Commands {
    /// The terminal dashboard (the default).
    Tui,
    /// Background mode: keep subscriptions updated.
    Daemon,
    /// Stop the core through its API.
    Stop,
    /// Send the core a restart signal.
    Restart,
    /// Show the core's status.
    Status,
    /// Stop the core through its API.
    Quit,
}

/// The parsed command line.
#[derive(Debug)]
pub struct Cli {
    pub command: Option<Commands>,
    /// Configuration file path.
    pub config: Option<String>,
    /// Log level (`info` unless given).
    pub log_level: String,
}

impl Cli {
    /// Whether the terminal dashboard runs: no command, or `tui`.
    pub fn is_tui_mode(&self) -> (r: bool)
        ensures
            r == match self.command {
                None => true,
                Some(c) => c == Commands::Tui,
            },
    {
        match self.command {
            None => true,
            Some(Commands::Tui) => true,
            Some(_) => false,
        }
    }

    /// The log filter used when the environment sets none: the dashboard's
    /// own messages at `info` and others at `warn` for the default level,
    /// else the given level.
    pub fn default_log_filter(&self) -> (r: String)
        ensures
            r@ == if self.log_level@ == "info"@ {
                "warn,clash_tui=info"@
            } else {
                self.log_level@
            },
    {
        if str_eq(self.log_level.as_str(), "info") {
            owned("warn,clash_tui=info")
        } else {
            self.log_level.clone()
        }
    }
}

/// How long log files are kept: seven days, in milliseconds.
pub const LOG_RETENTION_MS: u64 = 604800000;

/// Whether an entry of the log directory is removed at start-up: a file
/// last modified more than the retention time ago.
pub fn log_file_expired(age_ms: u64, is_file: bool) -> (r: bool)
    ensures
        r == (is_file && age_ms > LOG_RETENTION_MS),
{
    is_file && age_ms > LOG_RETENTION_MS
}

} // verus!
