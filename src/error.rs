//! Errors of the checkpoint-layer client and of state-sync replay.

use vstd::prelude::*;

verus! {

/// What can go wrong while talking to the checkpoint layer or replaying its events.
#[derive(Clone, Debug, PartialEq, Eq)]
pub enum HeimdallError {
    /// The request could not be sent or its response not read.
    RequestError(String),
    /// The request's URL could not be formed.
    UrlError(String),
    /// The response body was not the expected JSON.
    JsonError(String),
    /// The checkpoint layer answered with a status outside 2xx.
    UnsuccessfulResponse(u16),
    /// The checkpoint layer answered without content.
    NoResponse,
    /// A call could not be encoded.
    PackError,
    /// A return value could not be decoded.
    UnpackError,
    /// An event's time lies before the UNIX epoch.
    SystemTimeError,
    /// Return data of a contract call did not decode.
    SolDecodeError(String),
    /// A system call did not execute successfully.
    EVMError,
    /// The executor refused a state-sync transaction.
    InvalidStateSyncData,
    /// Span commits are unsupported: the validator-set call they make has no
    /// specified wire format.
    Unsupported,
}

} // verus!
