//! Core of a service that drives a UCI chess engine subprocess.
//!
//! The engine speaks a line-oriented text protocol over its standard
//! input and output.  This crate holds everything about that exchange
//! that can be stated and checked as logic: how command lines are
//! formatted, how the engine's output lines are reassembled and
//! classified, and how a session decides, line by line, when a
//! configuration command has been confirmed or a search has produced
//! its move.  The process itself — spawning the executable and moving
//! bytes over the two pipes — is left to the embedding program, which
//! hands this crate plain byte and text values and receives command
//! lines and decisions back.

use vstd::prelude::*;

pub mod cmd;
pub mod error;
pub mod laws;
pub mod linebuf;
pub mod protocol;
pub mod session;
pub mod text;
pub mod transcript;

pub use error::EngineError;
pub use error::EngineResult;
pub use linebuf::LineBuffer;
pub use session::Engine;
pub use session::DEFAULT_TIME;
pub use transcript::Transcript;

verus! {

/// The response shape handed back to the network-facing consumer of
/// the service: whether a move was produced, and the move itself or
/// the error text.
#[derive(Debug)]
pub struct SolveResponse {
    pub success: bool,
    pub result: String,
}

} // verus!
