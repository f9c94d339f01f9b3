//! The error taxonomy of the authentication pipeline.
//!
//! Every failure that reaches a caller is one of two coarse categories:
//! an unauthorized rejection or a generic internal failure. Raw detail from
//! collaborators (the token library, the identity store) never appears in
//! the caller-visible value.

use vstd::prelude::*;

verus! {

/// The caller-visible outcome of a failed authentication attempt.
#[derive(Debug)]
pub enum Error {
    /// The request could not be authenticated; carries a short message.
    Unauthorized(String),
    /// A collaborator failed in a way the caller must not learn about.
    InternalServerError,
    /// A precondition of the pipeline itself was not met (missing
    /// configuration); carries a short message.
    Message(String),
}

/// The mathematical model of an [`Error`]: the same shape over `Seq<char>`.
pub enum ErrorView {
    Unauthorized(Seq<char>),
    InternalServerError,
    Message(Seq<char>),
}

impl View for Error {
    type V = ErrorView;

    open spec fn view(&self) -> ErrorView {
        match self {
            Error::Unauthorized(m) => ErrorView::Unauthorized(m@),
            Error::InternalServerError => ErrorView::InternalServerError,
            Error::Message(m) => ErrorView::Message(m@),
        }
    }
}

impl Error {
    /// Build a configuration-shaped error from a message.
    pub fn string(s: &str) -> (r: Error)
        ensures
            r@ == ErrorView::Message(s@),
    {
        Error::Message(String::from_str(s))
    }

    /// Build an unauthorized rejection from a message.
    pub fn unauthorized(s: &str) -> (r: Error)
        ensures
            r@ == ErrorView::Unauthorized(s@),
    {
        Error::Unauthorized(String::from_str(s))
    }
}

} // verus!
