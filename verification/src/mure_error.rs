//! The error type shared by every operation of this library.

use vstd::prelude::*;

verus! {

/// A classified failure. Each variant carries the human-readable message
/// that the failing subsystem produced.
#[derive(Debug, Clone)]
pub enum Error {
    Message(String),
    GitCommandError(String),
    GHCommandError(String),
    CodecovError(String),
}

/// The spec-level shape of an [`Error`]: the variant plus the message text.
pub ghost enum ErrorModel {
    Message(Seq<char>),
    GitCommandError(Seq<char>),
    GHCommandError(Seq<char>),
    CodecovError(Seq<char>),
}

impl View for Error {
    type V = ErrorModel;

    open spec fn view(&self) -> ErrorModel {
        match self {
            Error::Message(m) => ErrorModel::Message(m@),
            Error::GitCommandError(m) => ErrorModel::GitCommandError(m@),
            Error::GHCommandError(m) => ErrorModel::GHCommandError(m@),
            Error::CodecovError(m) => ErrorModel::CodecovError(m@),
        }
    }
}

impl ErrorModel {
    /// The message text, independent of the variant.
    pub open spec fn message(self) -> Seq<char> {
        match self {
            ErrorModel::Message(m) => m,
            ErrorModel::GitCommandError(m) => m,
            ErrorModel::GHCommandError(m) => m,
            ErrorModel::CodecovError(m) => m,
        }
    }
}

impl Error {
    /// Wraps a plain message.
    pub fn from_str(message: &str) -> (e: Error)
        ensures
            e@ == ErrorModel::Message(message@),
    {
        Error::Message(message.to_owned())
    }

    /// The message carried by this error, whatever its variant.
    pub fn message(&self) -> (m: String)
        ensures
            m@ == self@.message(),
    {
        match self {
            Error::Message(m) => m.clone(),
            Error::GitCommandError(m) => m.clone(),
            Error::GHCommandError(m) => m.clone(),
            Error::CodecovError(m) => m.clone(),
        }
    }
}

} // verus!
