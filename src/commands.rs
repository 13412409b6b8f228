//! The commands a user can give, and the log level they run under.

use vstd::prelude::*;

verus! {

/// log::LevelFilter, a public enum of six unit variants; declared without a
/// body so that its variants can be named and compared here.
#[verifier::external_type_specification]
pub struct ExLevelFilter(log::LevelFilter);

/// Parsed command line: a command, if one was given, and a log level.
pub struct Args {
    pub cmd: Option<Commands>,
    pub log_level: Option<LogLevel>,
}

pub enum Commands {
    /// Embed texts and write them to a table.
    Write { input: Vec<String>, model: String, table: String, dim: String },
    /// Find the stored texts nearest to the given ones.
    Query { input: Vec<String>, model: String, table: String },
    /// Report the version.
    Version { version: String },
    /// No command was given.
    Empty,
}

#[derive(PartialEq, Eq, Structural, Clone, Copy)]
pub enum LogLevel {
    Debug,
    Info,
    Warn,
    Error,
}

impl Commands {
    pub fn is_write(&self) -> (r: bool)
        ensures
            r == self is Write,
    {
        matches!(self, Commands::Write { .. })
    }

    pub fn write(&self) -> (r: Option<&Commands>)
        ensures
            r == (if self is Write { Some(self) } else { None }),
    {
        if let Commands::Write { .. } = self {
            Some(self)
        } else {
            None
        }
    }

    pub fn is_query(&self) -> (r: bool)
        ensures
            r == self is Query,
    {
        matches!(self, Commands::Query { .. })
    }

    pub fn query(&self) -> (r: Option<&Commands>)
        ensures
            r == (if self is Query { Some(self) } else { None }),
    {
        if let Commands::Query { .. } = self {
            Some(self)
        } else {
            None
        }
    }

    pub fn is_version(&self) -> (r: bool)
        ensures
            r == self is Version,
    {
        matches!(self, Commands::Version { .. })
    }

    pub fn version(&self) -> (r: Option<&Commands>)
        ensures
            r == (if self is Version { Some(self) } else { None }),
    {
        if let Commands::Version { .. } = self {
            Some(self)
        } else {
            None
        }
    }
}

impl LogLevel {
    /// The filter of the `log` crate that lets this level and the more severe
    /// ones through.
    pub fn get_log_level_filter(&self) -> (r: log::LevelFilter)
        ensures
            r == (match *self {
                LogLevel::Debug => log::LevelFilter::Debug,
                LogLevel::Info => log::LevelFilter::Info,
                LogLevel::Warn => log::LevelFilter::Warn,
                LogLevel::Error => log::LevelFilter::Error,
            }),
    {
        match self {
            LogLevel::Debug => log::LevelFilter::Debug,
            LogLevel::Info => log::LevelFilter::Info,
            LogLevel::Warn => log::LevelFilter::Warn,
            LogLevel::Error => log::LevelFilter::Error,
        }
    }
}

/// Settles what a run does from the parsed command line: the command given,
/// or `Empty` when there is none, and the level asked for, or `Info`.
pub fn build_args(args: Args) -> (r: (Commands, LogLevel))
    ensures
        r.0 == (match args.cmd {
            Some(c) => c,
            None => Commands::Empty,
        }),
        r.1 == (match args.log_level {
            Some(l) => l,
            None => LogLevel::Info,
        }),
{
    let level = match args.log_level {
        Some(l) => l,
        None => LogLevel::Info,
    };
    let command = match args.cmd {
        Some(c) => c,
        None => Commands::Empty,
    };
    (command, level)
}

} // verus!
