//! The error taxonomy of the crawler. Per-URL failures are absorbed and
//! recorded in the URL store; these values surface only from construction
//! and from URL resolution.

use vstd::prelude::*;

verus! {

/// Errors that can occur.
#[derive(Copy, Clone, Debug, PartialEq, Eq, Structural)]
pub enum Error {
    /// An input/output error.
    IoError,
    /// A network request failed.
    RequestError,
    /// A string could not be parsed as a URL.
    UrlParseError,
    /// The rate limiter could not be built.
    RateLimitError,
    /// A state file could not be serialized or deserialized.
    SerdeError,
    /// A required string was blank or whitespace.
    StrWhitespaceError,
    /// The run was terminated early on purpose; not a true failure.
    EarlyTerminationError,
}

/// The description each error carries.
pub open spec fn error_message(e: Error) -> Seq<char> {
    match e {
        Error::IoError => "io error"@,
        Error::RequestError => "request error"@,
        Error::UrlParseError => "url parsing error"@,
        Error::RateLimitError => "ratelimit error"@,
        Error::SerdeError => "serde serialize/deserialize error"@,
        Error::StrWhitespaceError => "value cannot have leading/trailing whitespace, nor consist of only whitespace"@,
        Error::EarlyTerminationError => "terminating early"@,
    }
}

impl Error {
    /// A short description of the error.
    pub fn message(&self) -> (r: String)
        ensures
            r@ == error_message(*self),
    {
        match self {
            Error::IoError => "io error".to_owned(),
            Error::RequestError => "request error".to_owned(),
            Error::UrlParseError => "url parsing error".to_owned(),
            Error::RateLimitError => "ratelimit error".to_owned(),
            Error::SerdeError => "serde serialize/deserialize error".to_owned(),
            Error::StrWhitespaceError => "value cannot have leading/trailing whitespace, nor consist of only whitespace".to_owned(),
            Error::EarlyTerminationError => "terminating early".to_owned(),
        }
    }
}

} // verus!
