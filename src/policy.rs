use std::time::Duration;
use vstd::prelude::*;

verus! {

/// The span of `secs` whole seconds, as `Duration::from_secs` builds it.
pub uninterp spec fn whole_seconds(secs: u64) -> Duration;

/// Relies on std's `Duration::from_secs`: the span it builds depends on the
/// number of seconds alone.
pub assume_specification[ core::time::Duration::from_secs ](secs: u64) -> (r: Duration)
    ensures
        r == whole_seconds(secs),
;

/// The number of retries of the default policy.
pub const DEFAULT_RETRIES: usize = 3;

/// The fixed wait, in seconds, of the default policy.
pub const DEFAULT_DELAY_SECS: u64 = 2;

/// How long to wait after a failed attempt before the next one.
#[derive(Clone, Copy, Debug, PartialEq, Eq)]
pub enum RetryDelay {
    /// The same wait before every retry, whichever attempt just failed.
    Fixed(Duration),
}

impl RetryDelay {
    /// The wait that this strategy asks for before any retry.
    pub open spec fn wait(self) -> Duration {
        match self {
            RetryDelay::Fixed(d) => d,
        }
    }
}

/// A retry policy: how many times a failed operation is tried again, and
/// how long to wait before each new try.
#[derive(Clone, Copy, Debug, PartialEq, Eq)]
pub struct RetryStrategy {
    retries: usize,
    delay: RetryDelay,
}

impl RetryStrategy {
    /// The number of retries allowed after the first attempt.
    pub closed spec fn max_retries(self) -> nat {
        self.retries as nat
    }

    /// The delay strategy used between attempts.
    pub closed spec fn delay_strategy(self) -> RetryDelay {
        self.delay
    }

    /// The number of retries allowed after the first attempt.
    pub fn retries(&self) -> (r: usize)
        ensures
            r as nat == self.max_retries(),
    {
        self.retries
    }

    /// The delay strategy used between attempts.
    pub fn delay(&self) -> (r: RetryDelay)
        ensures
            r == self.delay_strategy(),
    {
        self.delay
    }

    /// A policy of `retries` retries with the given delay strategy.
    pub fn new(retries: usize, delay: RetryDelay) -> (r: Self)
        ensures
            r.max_retries() == retries as nat,
            r.delay_strategy() == delay,
    {
        RetryStrategy { retries, delay }
    }

    /// Set the number of retries, for fluent construction.
    pub fn with_retries(&mut self, retries: usize) -> (r: &mut Self)
        ensures
            r.max_retries() == retries as nat,
            r.delay_strategy() == old(self).delay_strategy(),
            *final(self) == *final(r),
    {
        self.retries = retries;
        self
    }

    /// Set the delay strategy, for fluent construction.
    pub fn with_delay(&mut self, delay: RetryDelay) -> (r: &mut Self)
        ensures
            r.max_retries() == old(self).max_retries(),
            r.delay_strategy() == delay,
            *final(self) == *final(r),
    {
        self.delay = delay;
        self
    }
}

impl Default for RetryStrategy {
    /// Three retries, two seconds apart.
    fn default() -> (r: Self)
        ensures
            r.max_retries() == DEFAULT_RETRIES as nat,
            r.delay_strategy() == RetryDelay::Fixed(whole_seconds(DEFAULT_DELAY_SECS)),
    {
        RetryStrategy {
            retries: DEFAULT_RETRIES,
            delay: RetryDelay::Fixed(Duration::from_secs(DEFAULT_DELAY_SECS)),
        }
    }
}

} // verus!
