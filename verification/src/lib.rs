//! A data-availability publishing client: response and error model, an
//! error classifier, a funding gate, the decision core of an RPC-backed
//! backend, and a backoff utility with cooperative cancellation.

pub mod backoff;
pub mod classify;
pub mod client;
pub mod config;
pub mod gate;
pub mod hexid;
pub mod text;
pub mod types;

use vstd::prelude::*;

verus! {

/// The fixed upper bound on a dispatched blob's size, in bytes (2 MiB).
pub const MAX_BLOB_SIZE: usize = 2097152;

} // verus!
