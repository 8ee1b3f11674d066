//! The error taxonomy of the engine session.
//!
//! Every failure a caller can observe is one of three variants:
//! a pipe failure (fatal to the whole session), an option the engine
//! rejected (recoverable), or a descriptive message such as a failed
//! startup check.

use vstd::prelude::*;
use vstd::string::StringExecFns;

verus! {

/// The error type for any errors encountered with the engine.
#[derive(Debug, Clone, PartialEq, Eq)]
pub enum EngineError {
    /// A read or write on the engine's pipes failed; the text describes
    /// the underlying failure.  Any such error is fatal to the session.
    Io(String),
    /// The engine does not recognize the named option.
    UnknownOption(String),
    /// A descriptive failure, such as a startup check that did not pass.
    Message(String),
}

/// A `Result` type which uses [`EngineError`] for representing errors.
pub type EngineResult<T> = Result<T, EngineError>;

impl EngineError {
    /// The error rendered as one line of text, exactly as the service
    /// reports it.
    pub fn describe(&self) -> (r: String)
        ensures
            r@ == match self {
                EngineError::Io(err) => "IO error: "@ + err@,
                EngineError::UnknownOption(option) => "No such option: '"@ + option@ + "'"@,
                EngineError::Message(msg) => "Error: '"@ + msg@ + "'"@,
            },
    {
        match self {
            EngineError::Io(err) => {
                let mut r = String::from_str("IO error: ");
                r.append(err.as_str());
                r
            },
            EngineError::UnknownOption(option) => {
                let mut r = String::from_str("No such option: '");
                r.append(option.as_str());
                r.append("'");
                r
            },
            EngineError::Message(msg) => {
                let mut r = String::from_str("Error: '");
                r.append(msg.as_str());
                r.append("'");
                r
            },
        }
    }
}

} // verus!
