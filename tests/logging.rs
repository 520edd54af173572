use isototest::errors::{InvalidLogLevelError, LoggingError};
use isototest::init_logging;
use isototest::logging::{init_default_logging, parse_level, LogLevel};

#[test]
fn level_names() {
    assert_eq!(parse_level(None), Ok(LogLevel::Info));
    assert_eq!(parse_level(Some("info")), Ok(LogLevel::Info));
    assert_eq!(parse_level(Some("debug")), Ok(LogLevel::Debug));
    assert_eq!(parse_level(Some("trace")), Ok(LogLevel::Trace));
}

#[test]
fn unknown_level_is_refused() {
    assert_eq!(
        parse_level(Some("loud")),
        Err(LoggingError::InvalidLogLevelError("Invalid log level 'loud'!".to_string()))
    );
    assert_eq!(
        init_default_logging(Some("INFO")),
        Err(LoggingError::InvalidLogLevelError("Invalid log level 'INFO'!".to_string()))
    );
}

#[test]
fn logger_installs_once() {
    let first = init_logging(Some("debug"));
    assert!(matches!(first, Ok(()) | Err(LoggingError::LoggingInitError(_))));
    let second = init_logging(None);
    assert!(matches!(second, Err(LoggingError::LoggingInitError(_))));
}

#[test]
fn error_messages() {
    assert_eq!(
        LoggingError::LoggingInitError("busy".to_string()).message(),
        "[error] Logging initialization failed: 'busy'"
    );
    assert_eq!(
        LoggingError::InvalidLogLevelError("x".to_string()).message(),
        "[error] Invalid log level: 'x'"
    );
    assert_eq!(
        InvalidLogLevelError("y".to_string()).message(),
        "[error] Invalid log level: 'y'"
    );
}
