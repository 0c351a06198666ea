//! Errors the library reports.
use vstd::prelude::*;

verus! {

/// What went wrong, with a human-readable message.
#[derive(Debug, Clone)]
pub enum InternalVoiceError {
    /// The configuration is invalid or cannot be located.
    Config(String),
    /// The Gemini API key could not be found.
    Secret(String),
    /// The Gemini service refused or failed a request.
    Gemini(String),
    /// The audio devices failed.
    Audio(String),
    /// The log system could not start.
    Tracing(String),
}

} // verus!
