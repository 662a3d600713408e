//! The ways a lookup can fail.

use vstd::prelude::*;

verus! {

/// Why a lookup gave no answer.
#[derive(Debug, Clone, PartialEq, Hash)]
pub enum Error {
    /// The request could not be carried out; the transport's message.
    Http(String),
    /// The reply was not the JSON that was expected.
    Json(String),
    /// The service refused the request; its own message, word for word.
    Other(String),
}

/// An [`Error`] with its message as a sequence of characters.
pub enum Failure {
    Http(Seq<char>),
    Json(Seq<char>),
    Other(Seq<char>),
}

impl View for Error {
    type V = Failure;

    open spec fn view(&self) -> Failure {
        match self {
            Error::Http(m) => Failure::Http(m@),
            Error::Json(m) => Failure::Json(m@),
            Error::Other(m) => Failure::Other(m@),
        }
    }
}

} // verus!
