//! Errors of the library.
use vstd::prelude::*;

verus! {

/// Why a screen capture failed.
#[derive(Clone, Debug, PartialEq, Eq)]
pub enum CaptureError {
    /// The resolution was neither given nor announced by the peer first.
    NoResolutionFound,
    /// A rectangle whose payload does not match its size, or that does not
    /// lie inside the frame.
    MalformedRectangle,
    /// The previous frame to composite onto is not of the capture's size.
    FrameSizeMismatch,
    /// The frame's buffer would not fit in this machine's address space.
    FrameTooLarge,
    /// The peer reported an error.
    Peer(String),
}

/// Why setting up logging failed.
#[derive(Clone, Debug, PartialEq, Eq)]
pub enum LoggingError {
    /// The logger could not be installed.
    LoggingInitError(String),
    /// The log level asked for is not one of those known.
    InvalidLogLevelError(String),
}

/// The text that describes a logging error.
pub open spec fn logging_error_text(e: LoggingError) -> Seq<char> {
    match e {
        LoggingError::LoggingInitError(msg) => "[error] Logging initialization failed: '"@ + msg@
            + "'"@,
        LoggingError::InvalidLogLevelError(msg) => "[error] Invalid log level: '"@ + msg@ + "'"@,
    }
}

impl LoggingError {
    /// The text that describes this error.
    pub fn message(&self) -> (r: String)
        ensures
            r@ == logging_error_text(*self),
    {
        let (mut text, msg) = match self {
            LoggingError::LoggingInitError(msg) => (
                String::from_str("[error] Logging initialization failed: '"),
                msg,
            ),
            LoggingError::InvalidLogLevelError(msg) => (
                String::from_str("[error] Invalid log level: '"),
                msg,
            ),
        };
        text.append(msg.as_str());
        text.append("'");
        text
    }
}

/// A log level that is not one of those known.
#[derive(Clone, Debug, PartialEq, Eq)]
pub struct InvalidLogLevelError(pub String);

impl InvalidLogLevelError {
    /// The text that describes this error.
    pub fn message(&self) -> (r: String)
        ensures
            r@ == "[error] Invalid log level: '"@ + self.0@ + "'"@,
    {
        let mut text = String::from_str("[error] Invalid log level: '");
        text.append(self.0.as_str());
        text.append("'");
        text
    }
}

} // verus!
