//! Error classifier: a deterministic mapping from a raw transport or backend
//! failure to a message and a retriable/non-retriable decision. A backend
//! "not found" answer is not a failure at all and never reaches this map; it
//! is an absent (`None`) result at the capability boundary.

use vstd::prelude::*;

use crate::text::contains_seq;
use crate::types::DAError;

verus! {

/// A raw failure observed while speaking to the backend, before
/// classification.
#[derive(Clone, Debug)]
pub enum RpcFailure {
    /// The transport could not connect, or the attempt timed out.
    ConnectTimeout { message: String },
    /// Any other transport or HTTP failure.
    Transport { message: String },
    /// The response arrived but could not be decoded or parsed.
    Decode { message: String },
    /// The backend answered with an explicit error object.
    Backend { code: i32, message: String },
}

/// The pattern in a backend error message that marks the failure as
/// transient and therefore worth retrying.
pub open spec fn transient_pattern() -> Seq<char> {
    "timed out"@
}

/// The classifier's retry decision: connect/timeout failures are transient;
/// decode failures and other transport failures are definitive; an explicit
/// backend error object is definitive unless its message matches the
/// recognized transient pattern.
pub open spec fn spec_is_retriable(f: RpcFailure) -> bool {
    match f {
        RpcFailure::ConnectTimeout { .. } => true,
        RpcFailure::Transport { .. } => false,
        RpcFailure::Decode { .. } => false,
        RpcFailure::Backend { code: _, message } => contains_seq(message@, transient_pattern()),
    }
}

/// The message the classifier reports: the raw failure's own message.
pub open spec fn spec_failure_message(f: RpcFailure) -> Seq<char> {
    match f {
        RpcFailure::ConnectTimeout { message } => message@,
        RpcFailure::Transport { message } => message@,
        RpcFailure::Decode { message } => message@,
        RpcFailure::Backend { code: _, message } => message@,
    }
}

/// Classify a raw failure into the one error type that crosses the
/// capability boundary.
pub fn classify_failure(f: RpcFailure) -> (r: DAError)
    ensures
        r.is_retriable == spec_is_retriable(f),
        r.cause@ == spec_failure_message(f),
{
    match f {
        RpcFailure::ConnectTimeout { message } => DAError { cause: message, is_retriable: true },
        RpcFailure::Transport { message } => DAError { cause: message, is_retriable: false },
        RpcFailure::Decode { message } => DAError { cause: message, is_retriable: false },
        RpcFailure::Backend { code: _, message } => {
            let transient = crate::text::str_contains(message.as_str(), "timed out");
            DAError { cause: message, is_retriable: transient }
        },
    }
}

} // verus!
