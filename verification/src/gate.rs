//! Funding gate: a compute-once, share-result initializer for the funding
//! address that pays for publication. The first resolution that succeeds is
//! cached for the instance's remaining lifetime and never recomputed; a
//! failed attempt is not cached, so the next use tries again. The
//! single-flight sharing of one in-flight attempt among concurrent callers
//! is the driver's concern; this value object supplies the caching and the
//! error shape, and is testable on its own.

use vstd::prelude::*;

use crate::types::{DAError, SpecError, to_non_retriable_da_error};

verus! {

/// The message reported when the wallet-ensure call fails; a failure here
/// indicates a configuration or setup problem and is never retried.
pub open spec fn funding_failure_msg(detail: Seq<char>) -> Seq<char> {
    "Failed to ensure own wallet and address for label 'da_funding': "@ + detail
}

/// Build the funding failure message for a concrete failure detail.
pub fn funding_failure_message(detail: &str) -> (r: String)
    ensures
        r@ == funding_failure_msg(detail@),
{
    let mut msg = String::from_str(
        "Failed to ensure own wallet and address for label 'da_funding': ",
    );
    msg.append(detail);
    msg
}

/// What one resolution does: the cache afterwards, and what the caller is
/// granted.
pub ghost struct GateResolution {
    pub cache_after: Option<Seq<char>>,
    pub granted: Result<Seq<char>, SpecError>,
}

/// How one resolution behaves. A cached address wins, whatever the new
/// attempt returned; otherwise a successful attempt is cached and handed to
/// the caller, and a failed attempt becomes a non-retriable error and
/// leaves the cache empty.
pub open spec fn spec_gate_resolve(
    cached: Option<Seq<char>>,
    outcome: Result<String, String>,
) -> GateResolution {
    match cached {
        Some(addr) => GateResolution { cache_after: Some(addr), granted: Ok(addr) },
        None => match outcome {
            Ok(addr) => GateResolution { cache_after: Some(addr@), granted: Ok(addr@) },
            Err(detail) => GateResolution {
                cache_after: None,
                granted: Err(
                    SpecError { cause: funding_failure_msg(detail@), is_retriable: false },
                ),
            },
        },
    }
}

/// Memoized funding address of one backend instance.
pub struct FundingGate {
    cached: Option<String>,
}

impl FundingGate {
    /// The address cached so far, if any.
    pub closed spec fn cached_address(&self) -> Option<Seq<char>> {
        match self.cached {
            Some(ref addr) => Some(addr@),
            None => None,
        }
    }

    /// A fresh gate: nothing resolved yet.
    pub fn new() -> (g: Self)
        ensures
            g.cached_address() is None,
    {
        FundingGate { cached: None }
    }

    /// The cached address, so a driver can skip the wallet-ensure attempt
    /// entirely once one has succeeded.
    pub fn get(&self) -> (r: Option<&String>)
        ensures
            match r {
                Some(addr) => self.cached_address() == Some(addr@),
                None => self.cached_address() is None,
            },
    {
        match self.cached {
            Some(ref addr) => Some(addr),
            None => None,
        }
    }

    /// Resolve the funding address: pass in what the wallet-ensure call
    /// returned, and get back the address, or the error every caller of
    /// that attempt sees.
    pub fn resolve(&mut self, outcome: Result<String, String>) -> (r: Result<String, DAError>)
        ensures
            ({
                let resolution = spec_gate_resolve(old(self).cached_address(), outcome);
                &&& final(self).cached_address() == resolution.cache_after
                &&& match r {
                    Ok(addr) => resolution.granted == Ok::<Seq<char>, SpecError>(addr@),
                    Err(e) => resolution.granted == Err::<Seq<char>, SpecError>(e@),
                }
            }),
    {
        match self.cached {
            Some(ref addr) => Ok(addr.clone()),
            None => match outcome {
                Ok(addr) => {
                    self.cached = Some(addr.clone());
                    Ok(addr)
                },
                Err(detail) => Err(
                    to_non_retriable_da_error(funding_failure_message(detail.as_str())),
                ),
            },
        }
    }
}

/// The funding address is computed at most once per instance: after a first
/// successful resolution, every later resolution is granted that same
/// address, whatever its own attempt outcome, and the cache never changes
/// again.
pub proof fn lemma_gate_caches_once(addr: String, later: Result<String, String>)
    ensures
        ({
            let first = spec_gate_resolve(None, Ok(addr));
            let second = spec_gate_resolve(first.cache_after, later);
            &&& first.granted == Ok::<Seq<char>, SpecError>(addr@)
            &&& first.cache_after == Some(addr@)
            &&& second.granted == Ok::<Seq<char>, SpecError>(addr@)
            &&& second.cache_after == Some(addr@)
        }),
{
}

} // verus!
