//! The engine's error taxonomy.
//!
//! Session-fatal outcomes end the loop; cycle-local ones fail a single
//! cycle and leave the session fit to continue.

use vstd::prelude::*;
use vstd::string::StringExecFns;

verus! {

/// Why a cycle, or the whole session, did not commit.
#[derive(Debug, PartialEq, Eq)]
pub enum LilreplError {
    /// The line source was interrupted by the user. Session-fatal.
    Interrupted,
    /// The line source reached the end of its input. Session-fatal.
    EndOfInput,
    /// The line source failed to produce a line. Session-fatal.
    IoFailure,
    /// A session could not be constructed. Session-fatal.
    ConstructionError,
    /// The line held an unterminated quote. Cycle-local.
    TokenizationFailed,
    /// The first token names no registered command. Cycle-local.
    UnknownCommand(String),
    /// The command takes exactly `expected` arguments, `actual` were given.
    /// Cycle-local.
    ArityMismatch { expected: usize, actual: usize },
    /// The evaluator itself reported failure. Cycle-local.
    HandlerError,
    /// The evaluator left the working directory outside the session's root;
    /// the directory was reverted. Cycle-local.
    RootEscape,
}

impl LilreplError {
    /// Whether this outcome must end the session's loop.
    pub open spec fn spec_is_fatal(&self) -> bool {
        match self {
            LilreplError::Interrupted => true,
            LilreplError::EndOfInput => true,
            LilreplError::IoFailure => true,
            LilreplError::ConstructionError => true,
            LilreplError::TokenizationFailed => false,
            LilreplError::UnknownCommand(_) => false,
            LilreplError::ArityMismatch { .. } => false,
            LilreplError::HandlerError => false,
            LilreplError::RootEscape => false,
        }
    }

    /// Tells a caller whether to stop looping (true) or whether the cycle
    /// merely failed and the loop may continue (false).
    pub fn is_fatal(&self) -> (r: bool)
        ensures
            r == self.spec_is_fatal(),
    {
        match self {
            LilreplError::Interrupted => true,
            LilreplError::EndOfInput => true,
            LilreplError::IoFailure => true,
            LilreplError::ConstructionError => true,
            LilreplError::TokenizationFailed => false,
            LilreplError::UnknownCommand(_) => false,
            LilreplError::ArityMismatch { .. } => false,
            LilreplError::HandlerError => false,
            LilreplError::RootEscape => false,
        }
    }

    /// The text that `describe` gives each variant.
    pub open spec fn spec_describe(&self) -> Seq<char> {
        match self {
            LilreplError::Interrupted => "interrupted"@,
            LilreplError::EndOfInput => "end of input"@,
            LilreplError::IoFailure => "the line source failed"@,
            LilreplError::ConstructionError => "the session could not be constructed"@,
            LilreplError::TokenizationFailed => "unterminated quote"@,
            LilreplError::UnknownCommand(name) => "unknown command: "@ + name@,
            LilreplError::ArityMismatch { .. } => "wrong number of arguments"@,
            LilreplError::HandlerError => "the command failed"@,
            LilreplError::RootEscape => "cannot leave the session's root directory"@,
        }
    }

    /// A short report of the outcome, for the caller's error channel.
    pub fn describe(&self) -> (r: String)
        ensures
            r@ == self.spec_describe(),
    {
        match self {
            LilreplError::Interrupted => "interrupted".to_owned(),
            LilreplError::EndOfInput => "end of input".to_owned(),
            LilreplError::IoFailure => "the line source failed".to_owned(),
            LilreplError::ConstructionError => "the session could not be constructed".to_owned(),
            LilreplError::TokenizationFailed => "unterminated quote".to_owned(),
            LilreplError::UnknownCommand(name) => {
                let mut t: String = "unknown command: ".to_owned();
                t.append(name.as_str());
                t
            },
            LilreplError::ArityMismatch { .. } => "wrong number of arguments".to_owned(),
            LilreplError::HandlerError => "the command failed".to_owned(),
            LilreplError::RootEscape => "cannot leave the session's root directory".to_owned(),
        }
    }
}

} // verus!
