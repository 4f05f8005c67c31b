//! The diagnostic log: what a line looks like and whether lines are written.
//!
//! The logger composes lines; appending them to the log file, and reading the
//! clock for them, is left to the host. A line that cannot be written is simply
//! lost: logging never makes a resolution fail.
use vstd::prelude::*;
use vstd::string::*;
use crate::text::{decimal, decimal_string};

verus! {

/// Whether diagnostic lines are produced at all. With `false` every logging
/// call stays in place and yields nothing.
pub const DEBUG_ENABLED: bool = true;

/// A log line: the time in seconds since the Unix epoch in square brackets,
/// a space, and the message.
pub open spec fn log_line(unix_seconds: nat, message: Seq<char>) -> Seq<char> {
    "["@ + decimal(unix_seconds) + "] "@ + message
}

/// What a logging call hands to the host: the line, unless logging is off.
pub open spec fn logged(unix_seconds: nat, message: Seq<char>) -> Option<Seq<char>> {
    if DEBUG_ENABLED {
        Some(log_line(unix_seconds, message))
    } else {
        None
    }
}

/// The sink for diagnostic lines. It has no state: all loggers are alike.
#[derive(Clone, Copy, Debug, PartialEq, Eq, Structural)]
pub struct Logger;

impl Logger {
    pub fn new() -> (r: Logger)
        ensures
            r == Logger,
    {
        Logger
    }

    /// The logger that every part of the process shares.
    pub fn instance() -> (r: &'static Logger)
        ensures
            *r == Logger,
    {
        &Logger
    }

    /// The name of the log file, which lives in the working directory and is
    /// opened for appending, created if absent.
    pub fn file_name() -> (r: &'static str)
        ensures
            r@ == "netcoredbg_extension_debug.log"@,
    {
        "netcoredbg_extension_debug.log"
    }

    /// Composes the line for a message through the shared logger.
    pub fn debug(unix_seconds: u64, message: &str) -> (r: Option<String>)
        ensures
            r is Some <==> DEBUG_ENABLED,
            match r {
                Some(line) => logged(unix_seconds as nat, message@) == Some(line@),
                None => logged(unix_seconds as nat, message@) is None,
            },
    {
        Logger::instance().debug_log(unix_seconds, message)
    }

    /// Composes the line for a message logged at the given time, or nothing
    /// when logging is off.
    pub fn debug_log(&self, unix_seconds: u64, message: &str) -> (r: Option<String>)
        ensures
            r is Some <==> DEBUG_ENABLED,
            match r {
                Some(line) => logged(unix_seconds as nat, message@) == Some(line@),
                None => logged(unix_seconds as nat, message@) is None,
            },
    {
        if !DEBUG_ENABLED {
            return None;
        }
        let mut line = String::from_str("[");
        line.append(decimal_string(unix_seconds).as_str());
        line.append("] ");
        line.append(message);
        Some(line)
    }
}

} // verus!
