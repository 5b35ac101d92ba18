//! Retry with linearly growing back-off for establishing a client
//! connection.

use vstd::prelude::*;

verus! {

/// Retries after the first failed attempt, before giving up.
pub const MAX_RETRY: u8 = 5;

/// Base back-off: the n-th retry (from 0) waits (n + 1) times this long.
pub const RETRY_DURATION_MS: u64 = 3000;

/// What to do after a failed attempt.
#[derive(Debug)]
pub enum RetryDecision<E> {
    /// Retries are exhausted: report this error, that of the last attempt.
    GiveUp(E),
    /// Sleep this many milliseconds, then attempt again.
    RetryAfter(u64),
}

/// The back-off before the retry that follows `retries` earlier ones, or
/// `None` when the retries are exhausted.
pub open spec fn retry_delay(retries: nat) -> Option<nat> {
    if retries >= MAX_RETRY {
        None
    } else {
        Some((RETRY_DURATION_MS * (retries + 1)) as nat)
    }
}

/// Attempts made, counting the one that is about to fail, when every attempt
/// fails and `retries` retries have already been made.
pub open spec fn attempts_when_failing(retries: nat) -> nat
    decreases MAX_RETRY - retries,
{
    if retries >= MAX_RETRY {
        1
    } else {
        1 + attempts_when_failing(retries + 1)
    }
}

/// The retry state of one connection attempt: how many retries were made.
pub struct Retry {
    retries: u8,
}

impl View for Retry {
    type V = nat;

    closed spec fn view(&self) -> nat {
        self.retries as nat
    }
}

impl Retry {
    /// Before the first attempt.
    pub fn new() -> (r: Self)
        ensures
            r@ == 0,
    {
        Retry { retries: 0 }
    }

    pub fn retries(&self) -> (r: u8)
        ensures
            r == self@,
    {
        self.retries
    }

    /// Decides what follows a failed attempt that reported `err`: another
    /// attempt after the back-off while retries remain, else `err` itself.
    pub fn on_failure<E>(&mut self, err: E) -> (r: RetryDecision<E>)
        ensures
            match retry_delay(old(self)@) {
                None => r == RetryDecision::GiveUp(err) && final(self)@ == old(self)@,
                Some(d) => r == RetryDecision::<E>::RetryAfter(d as u64) && final(self)@ == old(
                    self,
                )@ + 1,
            },
    {
        if self.retries >= MAX_RETRY {
            RetryDecision::GiveUp(err)
        } else {
            let delay = RETRY_DURATION_MS * (self.retries as u64 + 1);
            self.retries = self.retries + 1;
            RetryDecision::RetryAfter(delay)
        }
    }
}

/// With a connector that always fails, a connection is attempted six times:
/// five retries with back-offs of 3, 6, 9, 12 and 15 seconds, after which the
/// last attempt's error is reported.
pub proof fn lemma_retry_bound()
    ensures
        attempts_when_failing(0) == 6,
        forall|k: nat| k < MAX_RETRY ==> #[trigger] retry_delay(k) == Some((3000 * (k + 1)) as nat),
        retry_delay(MAX_RETRY as nat) is None,
{
    reveal_with_fuel(attempts_when_failing, 7);
}

} // verus!
