//! How much the program logs, as chosen on its command line.

use vstd::prelude::*;

verus! {

/// How much is logged.
#[derive(Clone, Copy, Debug, PartialEq, Eq, Structural)]
pub enum LogLevel {
    Trace,
    Debug,
    Info,
    Warn,
    Error,
    Off,
}

/// The arguments of the program.
#[derive(Debug, PartialEq, Eq)]
pub struct Args {
    pub log_level: String,
}

/// The level that `text` names. A name is spelled in lower case, or with its
/// first letter in upper case; anything else names no level.
pub open spec fn level_named(text: Seq<char>) -> Option<LogLevel> {
    if text == "Trace"@ || text == "trace"@ {
        Some(LogLevel::Trace)
    } else if text == "Debug"@ || text == "debug"@ {
        Some(LogLevel::Debug)
    } else if text == "Info"@ || text == "info"@ {
        Some(LogLevel::Info)
    } else if text == "Warn"@ || text == "warn"@ {
        Some(LogLevel::Warn)
    } else if text == "Error"@ || text == "error"@ {
        Some(LogLevel::Error)
    } else if text == "Off"@ || text == "off"@ {
        Some(LogLevel::Off)
    } else {
        None
    }
}

/// Whether two texts are the same.
fn same_text(left: &str, right: &str) -> (same: bool)
    ensures
        same == (left@ == right@),
{
    left.to_owned() == right.to_owned()
}

/// Whether `level` names a log level.
pub fn is_log_level(level: &str) -> (known: bool)
    ensures
        known == level_named(level@) is Some,
{
    same_text(level, "Trace") || same_text(level, "trace") || same_text(level, "Debug")
        || same_text(level, "debug") || same_text(level, "Info") || same_text(level, "info")
        || same_text(level, "Warn") || same_text(level, "warn") || same_text(level, "Error")
        || same_text(level, "error") || same_text(level, "Off") || same_text(level, "off")
}

/// Reads the name of a log level. A text that names none is no input of this
/// function: [`is_log_level`] tells the two apart, and [`Args::level`] reads
/// any text.
pub fn str_to_log_level(level: &str) -> (named: LogLevel)
    requires
        level_named(level@) is Some,
    ensures
        level_named(level@) == Some(named),
{
    if same_text(level, "Trace") || same_text(level, "trace") {
        LogLevel::Trace
    } else if same_text(level, "Debug") || same_text(level, "debug") {
        LogLevel::Debug
    } else if same_text(level, "Info") || same_text(level, "info") {
        LogLevel::Info
    } else if same_text(level, "Warn") || same_text(level, "warn") {
        LogLevel::Warn
    } else if same_text(level, "Error") || same_text(level, "error") {
        LogLevel::Error
    } else {
        LogLevel::Off
    }
}

impl Clone for Args {
    fn clone(&self) -> (copy: Args)
        ensures
            copy.log_level@ == self.log_level@,
    {
        Args { log_level: self.log_level.clone() }
    }
}

impl Args {
    /// The arguments that ask for the log level named `log_level`.
    pub fn new(log_level: String) -> (args: Args)
        ensures
            args.log_level@ == log_level@,
    {
        Args { log_level }
    }

    /// The log level that the arguments ask for, if they name one.
    pub fn level(&self) -> (named: Option<LogLevel>)
        ensures
            named == level_named(self.log_level@),
    {
        if is_log_level(self.log_level.as_str()) {
            Some(str_to_log_level(self.log_level.as_str()))
        } else {
            None
        }
    }
}

} // verus!
