//! The error taxonomy of the bridge and its mapping to HTTP status codes.

use vstd::prelude::*;

verus! {

/// What can go wrong inside the registry and the media-graph controller.
#[derive(Debug)]
pub enum MyError {
    /// The payload failed session-description validation; the reason is kept.
    InvalidSDP(String),
    /// A connection with this id is already registered.
    RepeatedConnection(String),
    /// No connection with this id is registered.
    ConnectionNotFound(String),
    /// The connection id in the request path is missing or empty.
    EmptyConnection,
    /// The registry lock was held past its ceiling.
    LockTimeout,
    /// The rendezvous ended without a WHIP offer.
    OfferMissing,
    /// The rendezvous ended without a WHEP answer.
    AnswerMissing,
    /// A named element is missing from the media graph.
    MissingElement(String),
    /// A graph operation failed; the description is kept.
    FailedOperation(String),
}

/// What an HTTP handler surfaces to the client.
#[derive(Debug)]
pub enum SubscribeError {
    /// The request itself is at fault.
    ValidationError(MyError),
    /// The demux has announced no media pad yet, so no viewer can attach.
    MissingInputStream,
    /// An internal operation failed.
    UnexpectedError(MyError),
}

/// The status code owed to each handler error.
pub open spec fn spec_status_code(e: SubscribeError) -> u16 {
    match e {
        SubscribeError::ValidationError(_) => 400,
        SubscribeError::MissingInputStream => 400,
        SubscribeError::UnexpectedError(_) => 500,
    }
}

impl SubscribeError {
    /// The HTTP status code this error is answered with.
    pub fn status_code(&self) -> (r: u16)
        ensures
            r == spec_status_code(*self),
    {
        match self {
            SubscribeError::ValidationError(_) => 400,
            SubscribeError::MissingInputStream => 400,
            SubscribeError::UnexpectedError(_) => 500,
        }
    }
}

} // verus!
