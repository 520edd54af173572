//! A default logger setup: records up to a level chosen by name.
use vstd::prelude::*;

use crate::errors::LoggingError;

verus! {

/// The target that this library's log records carry.
pub const LOG_TARGET: &'static str = "[isototest]";

/// How much is logged: `Info` for general use, `Debug` and `Trace` for
/// development.
#[derive(Clone, Copy, Debug, PartialEq, Eq, Structural)]
pub enum LogLevel {
    Info,
    Debug,
    Trace,
}

/// The level a name selects; no name selects `Info`.
pub open spec fn level_named(level: Option<Seq<char>>) -> Option<LogLevel> {
    match level {
        None => Some(LogLevel::Info),
        Some(s) => if s == "info"@ {
            Some(LogLevel::Info)
        } else if s == "debug"@ {
            Some(LogLevel::Debug)
        } else if s == "trace"@ {
            Some(LogLevel::Trace)
        } else {
            None
        },
    }
}

/// The view of an optional name.
pub open spec fn name_view(level: Option<&str>) -> Option<Seq<char>> {
    match level {
        None => None,
        Some(s) => Some(s@),
    }
}

/// The message of the error for an unknown level name.
pub open spec fn invalid_level_text(s: Seq<char>) -> Seq<char> {
    "Invalid log level '"@ + s + "'!"@
}

/// The level that `level` names, or the error for an unknown name.
pub fn parse_level(level: Option<&str>) -> (r: Result<LogLevel, LoggingError>)
    ensures
        match level_named(name_view(level)) {
            Some(l) => r == Ok::<LogLevel, LoggingError>(l),
            None => r matches Err(LoggingError::InvalidLogLevelError(msg)) && msg@
                == invalid_level_text(level.unwrap()@),
        },
{
    match level {
        None => Ok(LogLevel::Info),
        Some(s) => {
            let name = String::from_str(s);
            if name == String::from_str("info") {
                Ok(LogLevel::Info)
            } else if name == String::from_str("debug") {
                Ok(LogLevel::Debug)
            } else if name == String::from_str("trace") {
                Ok(LogLevel::Trace)
            } else {
                let mut msg = String::from_str("Invalid log level '");
                msg.append(s);
                msg.append("'!");
                Err(LoggingError::InvalidLogLevelError(msg))
            }
        },
    }
}

/// Relies on env_logger's `Builder::new`, `Builder::filter_level` and
/// `Builder::try_init`: installs a global logger that passes records up to
/// `level`, or fails, with the reason, when a global logger is already set.
#[verifier::external_body]
fn install_logger(level: LogLevel) -> (r: Result<(), String>) {
    let filter = match level {
        LogLevel::Info => log::LevelFilter::Info,
        LogLevel::Debug => log::LevelFilter::Debug,
        LogLevel::Trace => log::LevelFilter::Trace,
    };
    match env_logger::Builder::new().filter_level(filter).try_init() {
        Ok(()) => Ok(()),
        Err(e) => Err(e.to_string()),
    }
}

/// Install the default logger at the level that `level` names: "info"
/// (also the level when none is named), "debug" or "trace". An unknown
/// name is refused before anything is installed; installing fails when a
/// logger is already in place.
pub fn init_default_logging(level: Option<&str>) -> (r: Result<(), LoggingError>)
    ensures
        match level_named(name_view(level)) {
            Some(_) => r matches Ok(()) || r matches Err(LoggingError::LoggingInitError(_)),
            None => r matches Err(LoggingError::InvalidLogLevelError(msg)) && msg@
                == invalid_level_text(level.unwrap()@),
        },
{
    match parse_level(level) {
        Ok(l) => match install_logger(l) {
            Ok(()) => Ok(()),
            Err(reason) => Err(LoggingError::LoggingInitError(reason)),
        },
        Err(e) => Err(e),
    }
}

} // verus!
