//! The unified error type of the command-line surface: every handler and the
//! dispatcher speak in terms of it, and the dispatcher alone turns it into a
//! process outcome.

use vstd::prelude::*;

use crate::parse;

verus! {

/// An output failure, reduced to the two things the dispatcher reads of it:
/// whether the downstream reader closed its pipe, and the message to show
/// otherwise.
pub struct IoFailure {
    pub broken_pipe: bool,
    pub message: String,
}

/// The outcome of a handler: argument-parse failure (carried through to the
/// parser's own exit routine), output failure, or a free-form message.
pub enum CliError {
    Flag(docopt::Error),
    Io(IoFailure),
    Other(String),
}

pub type CliResult<T> = Result<T, CliError>;

impl CliError {
    /// The message shown for this error: a parse error's own rendering, an
    /// output failure's message, or the free-form text.
    pub fn message(&self) -> (r: String)
        ensures
            self matches CliError::Io(f) ==> r@ == f.message@,
            self matches CliError::Other(s) ==> r@ == s@,
    {
        match self {
            CliError::Flag(e) => parse::docopt_error_message(e),
            CliError::Io(f) => f.message.clone(),
            CliError::Other(s) => s.clone(),
        }
    }
}

impl From<docopt::Error> for CliError {
    fn from(err: docopt::Error) -> CliError {
        CliError::Flag(err)
    }
}

impl vstd::std_specs::convert::FromSpecImpl<docopt::Error> for CliError {
    open spec fn obeys_from_spec() -> bool {
        true
    }

    open spec fn from_spec(v: docopt::Error) -> CliError {
        CliError::Flag(v)
    }
}

impl From<IoFailure> for CliError {
    fn from(err: IoFailure) -> CliError {
        CliError::Io(err)
    }
}

impl vstd::std_specs::convert::FromSpecImpl<IoFailure> for CliError {
    open spec fn obeys_from_spec() -> bool {
        true
    }

    open spec fn from_spec(v: IoFailure) -> CliError {
        CliError::Io(v)
    }
}

impl From<String> for CliError {
    fn from(err: String) -> CliError {
        CliError::Other(err)
    }
}

impl vstd::std_specs::convert::FromSpecImpl<String> for CliError {
    open spec fn obeys_from_spec() -> bool {
        true
    }

    open spec fn from_spec(v: String) -> CliError {
        CliError::Other(v)
    }
}

} // verus!
