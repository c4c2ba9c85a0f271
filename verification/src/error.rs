//! The failure taxonomy callers see.

use vstd::prelude::*;

use crate::api;
use crate::response::Response;

verus! {

/// Every failure the client core can surface.
#[derive(Clone, Debug, PartialEq, Eq)]
pub enum Error {
    /// The peer ended the stream gracefully.
    Closed,
    /// No reply arrived within the request timeout.
    Timeout,
    /// An I/O or protocol level transport failure, with its description.
    TransportError(String),
    /// A reply arrived but its shape does not match what the caller expected.
    UnexpectedResponse,
    /// The server answered with a structured error.
    APIResponse(api::Error),
    /// A frame could not be parsed, with a description of the fault.
    ParseError(String),
    /// A request was registered under an id that is still pending.
    DuplicateId,
}

impl Error {
    /// The failure reported when a reply has the wrong shape; the unexpected
    /// frame itself is dropped.
    pub fn unexpected(_res: Response) -> (r: Self)
        ensures
            r == Error::UnexpectedResponse,
    {
        Error::UnexpectedResponse
    }

    /// The server error inside this failure, when the server sent one.
    pub fn api_respose(&self) -> (r: Option<&api::Error>)
        ensures
            match r {
                Some(e) => *self == Error::APIResponse(*e),
                None => !(*self is APIResponse),
            },
    {
        match self {
            Error::APIResponse(error) => Some(error),
            _ => None,
        }
    }
}

} // verus!
