//! Retry-timing value object with cooperative cancellation: `Backoff` tracks
//! geometric delay growth, and `BackoffAndCancellable` pairs it with a shared
//! cancellation token so a retry driver can, in one step, obtain how long to
//! wait and whether to abandon the wait early. The pair performs no I/O and
//! no sleeping itself; an external driver does the waiting.

use vstd::prelude::*;

verus! {

/// Declares tokio_util's cancellation token so values of it can be held and
/// handed around here; the token is a shared, observe-only cooperative
/// signal, and nothing is assumed of its state.
#[verifier::external_type_specification]
#[verifier::external_body]
pub struct ExCancellationToken(tokio_util::sync::CancellationToken);

/// Relies on tokio_util's CancellationToken::clone: the clone observes the
/// same cancellation signal as the original. Nothing is promised of the
/// returned value.
pub assume_specification[ <tokio_util::sync::CancellationToken as Clone>::clone ](
    token: &tokio_util::sync::CancellationToken,
) -> tokio_util::sync::CancellationToken;

/// Relies on tokio_util's CancellationToken::is_cancelled: whether the token
/// has been cancelled. The answer depends on shared state other holders may
/// change at any time, so nothing is promised of it.
#[verifier::external_body]
fn token_is_cancelled(token: &tokio_util::sync::CancellationToken) -> bool {
    token.is_cancelled()
}

/// Pairs cancellation awareness with backoff timing: a retry driver asks it
/// for the next delay and checks for cancellation before and during the wait.
#[derive(Clone, Debug)]
pub struct BackoffAndCancellable {
    pub backoff: Backoff,
    pub cancellation_token: tokio_util::sync::CancellationToken,
}

impl BackoffAndCancellable {
    pub fn new(
        backoff: Backoff,
        cancellation_token: tokio_util::sync::CancellationToken,
    ) -> (r: Self)
        ensures
            r.backoff == backoff,
            r.cancellation_token == cancellation_token,
    {
        Self { backoff, cancellation_token }
    }

    /// Observe the cooperative cancellation signal; `true` means pending
    /// waits and retries should be abandoned.
    pub fn is_cancelled(&self) -> bool {
        token_is_cancelled(&self.cancellation_token)
    }
}

/// The delay multiplication coefficient applied by each `delay()` call.
pub const DELAY_MULTIPLIER: u64 = 2;

/// Convenience structure that takes care of backoff timings. All delays are
/// in milliseconds. `current_delay` always stays within
/// `[base_delay, max_delay]`.
#[derive(Debug)]
pub struct Backoff {
    base_delay: u64,
    current_delay: u64,
    max_delay: u64,
}

impl Backoff {
    /// The first delay `delay()` will hand out, in milliseconds.
    pub closed spec fn base(&self) -> u64 {
        self.base_delay
    }

    /// The delay the next `delay()` call will hand out, in milliseconds.
    pub closed spec fn current(&self) -> u64 {
        self.current_delay
    }

    /// The cap no handed-out delay ever exceeds, in milliseconds.
    pub closed spec fn max(&self) -> u64 {
        self.max_delay
    }

    /// `current_delay` never leaves `[base_delay, max_delay]`.
    #[verifier::type_invariant]
    pub closed spec fn wf(self) -> bool {
        self.base_delay <= self.current_delay <= self.max_delay
    }

    /// Create a backoff with `base_delay` (first delay) and `max_delay`
    /// (maximum delay possible), both in milliseconds.
    pub fn new(base_delay: u64, max_delay: u64) -> (r: Self)
        requires
            base_delay <= max_delay,
        ensures
            r.base() == base_delay,
            r.current() == base_delay,
            r.max() == max_delay,
    {
        Backoff { base_delay, current_delay: base_delay, max_delay }
    }

    /// Return the current delay, then grow the next one geometrically
    /// (doubled, capped at `max_delay`).
    pub fn delay(&mut self) -> (r: u64)
        ensures
            r == old(self).current(),
            final(self).base() == old(self).base(),
            final(self).max() == old(self).max(),
            final(self).current() == if DELAY_MULTIPLIER * old(self).current() <= old(self).max() {
                DELAY_MULTIPLIER * old(self).current()
            } else {
                old(self).max() as int
            },
    {
        proof {
            use_type_invariant(&*self);
        }
        let current = self.current_delay;
        self.current_delay = if self.current_delay <= self.max_delay / DELAY_MULTIPLIER {
            self.current_delay * DELAY_MULTIPLIER
        } else {
            self.max_delay
        };
        current
    }

    /// Reset the next delay back to the base delay, unconditionally.
    pub fn reset(&mut self)
        ensures
            final(self).base() == old(self).base(),
            final(self).max() == old(self).max(),
            final(self).current() == old(self).base(),
    {
        proof {
            use_type_invariant(&*self);
        }
        self.current_delay = self.base_delay;
    }
}

impl Clone for Backoff {
    fn clone(&self) -> (r: Self)
        ensures
            r == *self,
    {
        proof {
            use_type_invariant(self);
        }
        Backoff {
            base_delay: self.base_delay,
            current_delay: self.current_delay,
            max_delay: self.max_delay,
        }
    }
}

impl Default for Backoff {
    /// Sensible defaults: one second base, five seconds maximum.
    fn default() -> (r: Self)
        ensures
            r.base() == 1000,
            r.current() == 1000,
            r.max() == 5000,
    {
        Self::new(1000, 5000)
    }
}

} // verus!
