//! Errors reported while validating a G-code file.
use vstd::prelude::*;

verus! {

/// The standard library's I/O error, carried opaquely when a line cannot be read.
#[verifier::external_type_specification]
#[verifier::external_body]
pub struct ExIoError(std::io::Error);

/// Result type of the validation functions.
pub type PrintResult<T> = Result<T, Error>;

/// What can go wrong on a line or while reading a file.
#[derive(Debug)]
pub enum Error {
    /// A command that is neither supported nor known: command name, line number.
    InvalidCommandInLine(Option<String>, Option<usize>),
    /// A real machine command that is not handled yet.
    UnsupportedCommand(String),
    /// The input could not be read.
    InputOutputError(std::io::Error),
}

/// What a line of a file amounts to, in terms of plain values.
pub enum LineVerdict {
    /// Nothing but whitespace and comments.
    Blank,
    /// A supported command.
    Accepted,
    /// A known command that is not handled yet, by its base name.
    Unsupported(Seq<char>),
    /// An unknown command, by its base name and its line number.
    Invalid(Seq<char>, nat),
}

/// The verdict that an error reports, if it reports one.
pub open spec fn verdict_of_error(e: Error) -> Option<LineVerdict> {
    match e {
        Error::UnsupportedCommand(name) => Some(LineVerdict::Unsupported(name@)),
        Error::InvalidCommandInLine(Some(name), Some(n)) => Some(LineVerdict::Invalid(name@, n as nat)),
        _ => None,
    }
}

} // verus!
