//! Errors reported to callers that wait for a response.

use vstd::prelude::*;

verus! {

/// Why an HTTP call produced no document.
#[derive(Clone, Debug, PartialEq, Eq)]
pub enum HttpFailure {
    /// The request never got an answer: connection, DNS, timeout. Holds the
    /// transport's own description.
    Transport(String),
    /// The service answered with a status outside the success range.
    Status(u16),
    /// The service answered with success but the body was no JSON document.
    /// Holds the parser's message.
    Decode(String),
}

/// The one kind of error a caller can see: the HTTP call failed.
#[derive(Clone, Debug, PartialEq, Eq)]
pub enum PosthogError {
    HttpError(HttpFailure),
}

} // verus!
