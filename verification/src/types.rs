//! Shared value types that every backend produces and every caller consumes:
//! the dispatch/inclusion/finality responses, the one error type that crosses
//! the capability boundary, and the backend variant tag.

use vstd::prelude::*;

verus! {

/// Opaque backend-assigned handle for a submitted blob, created on a
/// successful dispatch and owned by the caller thereafter.
#[derive(Clone, Debug)]
pub struct DispatchResponse {
    pub request_id: String,
}

/// Backend-defined payload proving a blob's presence. For the RPC backend
/// this is the 32-byte identifier hash itself, not the raw blob content.
#[derive(Clone, Debug)]
pub struct InclusionData {
    pub data: Vec<u8>,
}

/// Echoes the request id once the backend confirms irreversibility.
#[derive(Clone, Debug)]
pub struct FinalityResponse {
    pub blob_id: String,
}

/// The only error type crossing the capability boundary: a message and a
/// retriable/non-retriable decision for the caller's retry loop.
#[derive(Clone, Debug)]
pub struct DAError {
    pub cause: String,
    pub is_retriable: bool,
}

/// The mathematical shadow of `DAError`: the message as a character
/// sequence, and the retry decision.
pub ghost struct SpecError {
    pub cause: Seq<char>,
    pub is_retriable: bool,
}

impl View for DAError {
    type V = SpecError;

    open spec fn view(&self) -> SpecError {
        SpecError { cause: self.cause@, is_retriable: self.is_retriable }
    }
}

/// Tag identifying which backend variant is active; callers use it for
/// backend-specific behavior such as size limits.
#[derive(Clone, Copy, Debug, PartialEq, Eq, Structural)]
pub enum ClientType {
    Bitcoin,
    NoDA,
}

/// Wraps a failure message as an error the caller must not retry.
pub fn to_non_retriable_da_error(cause: String) -> (r: DAError)
    ensures
        r.cause == cause,
        !r.is_retriable,
{
    DAError { cause, is_retriable: false }
}

/// Wraps a failure message as an error the caller may retry.
pub fn to_retriable_da_error(cause: String) -> (r: DAError)
    ensures
        r.cause == cause,
        r.is_retriable,
{
    DAError { cause, is_retriable: true }
}

} // verus!
