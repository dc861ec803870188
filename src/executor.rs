use std::time::Duration;
use vstd::prelude::*;
use crate::policy::{RetryDelay, RetryStrategy};

verus! {

/// What the caller does after handing an attempt's result to the executor.
pub enum Step<T, E> {
    /// The session is over: this is its result.
    Done(Result<T, E>),
    /// Wait this long, then make the next attempt.
    Wait(Duration),
}

/// The decision after one attempt, from the retries still allowed, the delay
/// strategy and the attempt's result: the retries left afterwards, and the step.
pub open spec fn next_step<T, E>(remaining: nat, delay: RetryDelay, res: Result<T, E>) -> (nat, Step<T, E>) {
    match res {
        Ok(_) => (remaining, Step::Done(res)),
        Err(_) => if remaining > 0 {
            ((remaining - 1) as nat, Step::Wait(delay.wait()))
        } else {
            (remaining, Step::Done(res))
        },
    }
}

/// A fallible operation bound to a retry policy.
#[verifier::reject_recursive_types(F)]
#[verifier::reject_recursive_types(T)]
#[verifier::reject_recursive_types(E)]
pub struct Retryable<F, T, E> where F: FnMut() -> Result<T, E> {
    inner: F,
    strategy: RetryStrategy,
    remaining: usize,
}

impl<F, T, E> Retryable<F, T, E> where F: FnMut() -> Result<T, E> {
    /// The policy this executor follows.
    pub closed spec fn policy(&self) -> RetryStrategy {
        self.strategy
    }

    /// The retries still allowed in the current session.
    pub closed spec fn retries_left(&self) -> nat {
        self.remaining as nat
    }

    /// The wrapped operation.
    pub closed spec fn operation(&self) -> F {
        self.inner
    }

    /// Wrap a given function or closure, with a given strategy.
    pub fn new(func: F, strategy: RetryStrategy) -> (r: Retryable<F, T, E>)
        ensures
            r.policy() == strategy,
            r.retries_left() == strategy.max_retries(),
            r.operation() == func,
    {
        Retryable { inner: func, strategy, remaining: strategy.retries() }
    }

    /// Make one attempt: call the wrapped operation once.
    pub fn attempt(&mut self) -> (r: Result<T, E>)
        requires
            call_requires(old(self).operation(), ()),
        ensures
            call_ensures(old(self).operation(), (), r),
            final(self).policy() == old(self).policy(),
            final(self).retries_left() == old(self).retries_left(),
    {
        (self.inner)()
    }

    /// Decide what follows an attempt that returned `res`: a success ends
    /// the session; a failure ends it once no retry is left, and otherwise
    /// spends one retry and asks for the policy's wait first.
    pub fn on_result(&mut self, res: Result<T, E>) -> (r: Step<T, E>)
        ensures
            (final(self).retries_left(), r) == next_step(
                old(self).retries_left(),
                old(self).policy().delay_strategy(),
                res,
            ),
            final(self).policy() == old(self).policy(),
            final(self).operation() == old(self).operation(),
    {
        match res {
            Ok(_) => Step::Done(res),
            Err(_) => {
                if self.remaining > 0 {
                    self.remaining = self.remaining - 1;
                    Step::Wait(self.next_run_time())
                } else {
                    Step::Done(res)
                }
            },
        }
    }

    /// Make one attempt and decide what follows it, as `on_result` does.
    pub fn step(&mut self) -> (r: Step<T, E>)
        requires
            call_requires(old(self).operation(), ()),
        ensures
            exists|res: Result<T, E>|
                #[trigger] call_ensures(old(self).operation(), (), res)
                && (final(self).retries_left(), r) == next_step(
                    old(self).retries_left(),
                    old(self).policy().delay_strategy(),
                    res,
                ),
            final(self).policy() == old(self).policy(),
    {
        let res = self.attempt();
        self.on_result(res)
    }

    fn next_run_time(&self) -> (r: Duration)
        ensures
            r == self.policy().delay_strategy().wait(),
    {
        match self.strategy.delay() {
            RetryDelay::Fixed(delay) => delay,
        }
    }
}

} // verus!
