//! What can go wrong in a run, with the context that the caller needs to act.

use vstd::prelude::*;
use vstd::string::*;

verus! {

/// A failure of one step of a run. Each is fatal to that step and to nothing
/// else; none is retried here.
#[derive(Debug)]
pub enum Error {
    /// The source path does not exist.
    NotFound { path: String },
    /// The source could not be decoded.
    MalformedInput { path: String, cause: String },
    /// No registered parser answers to the format name.
    UnknownFormat { format: String },
    /// No registered generator answers to the name.
    UnknownGenerator { name: String },
}

/// The mathematical view of `Error`: texts as sequences of characters, lists as sequences.
pub enum ErrorView {
    NotFound { path: Seq<char> },
    MalformedInput { path: Seq<char>, cause: Seq<char> },
    UnknownFormat { format: Seq<char> },
    UnknownGenerator { name: Seq<char> },
}

impl View for Error {
    type V = ErrorView;

    open spec fn view(&self) -> ErrorView {
        match self {
            Error::NotFound { path } => ErrorView::NotFound { path: path@ },
            Error::MalformedInput { path, cause } => ErrorView::MalformedInput {
                path: path@,
                cause: cause@,
            },
            Error::UnknownFormat { format } => ErrorView::UnknownFormat { format: format@ },
            Error::UnknownGenerator { name } => ErrorView::UnknownGenerator { name: name@ },
        }
    }
}

impl ErrorView {
    /// The failure in words.
    pub open spec fn message(self) -> Seq<char> {
        match self {
            ErrorView::NotFound { path } => "Input file not found: "@ + path,
            ErrorView::MalformedInput { path, cause } => "Failed to parse input "@ + path + ": "@
                + cause,
            ErrorView::UnknownFormat { format } => "Unknown input format: "@ + format,
            ErrorView::UnknownGenerator { name } => "Unknown generator: "@ + name,
        }
    }
}

impl Error {
    /// The failure in words.
    pub fn message(&self) -> (text: String)
        ensures
            text@ == self@.message(),
    {
        match self {
            Error::NotFound { path } => {
                let mut text = String::from_str("Input file not found: ");
                text.append(path.as_str());
                text
            },
            Error::MalformedInput { path, cause } => {
                let mut text = String::from_str("Failed to parse input ");
                text.append(path.as_str());
                text.append(": ");
                text.append(cause.as_str());
                text
            },
            Error::UnknownFormat { format } => {
                let mut text = String::from_str("Unknown input format: ");
                text.append(format.as_str());
                text
            },
            Error::UnknownGenerator { name } => {
                let mut text = String::from_str("Unknown generator: ");
                text.append(name.as_str());
                text
            },
        }
    }
}

} // verus!
