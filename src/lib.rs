//! Driving a remote machine through its display: typing text as paced key
//! events, and assembling screen captures from rectangle updates.
use vstd::prelude::*;

pub mod capture;
pub mod errors;
pub mod frame;
pub mod keyboard;
pub mod keycode;
pub mod logging;
pub mod pacing;

use crate::errors::LoggingError;
use crate::logging::{init_default_logging, invalid_level_text, level_named, name_view};

verus! {

/// Set up logging at the level that `level` names ("info", the default,
/// "debug" or "trace").
pub fn init_logging(level: Option<&str>) -> (r: Result<(), LoggingError>)
    ensures
        match level_named(name_view(level)) {
            Some(_) => r matches Ok(()) || r matches Err(LoggingError::LoggingInitError(_)),
            None => r matches Err(LoggingError::InvalidLogLevelError(msg)) && msg@
                == invalid_level_text(level.unwrap()@),
        },
{
    init_default_logging(level)
}

} // verus!
