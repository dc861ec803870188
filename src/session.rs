//! A whole retry session, played on a known sequence of attempt results,
//! and the laws that every session obeys.
use std::time::Duration;
use vstd::prelude::*;
use crate::executor::{next_step, Step};
use crate::policy::{RetryDelay, RetryStrategy};

verus! {

/// The number of attempts a session makes when `outcomes[i]` is what
/// attempt `i` returns, starting with `remaining` retries allowed.
pub open spec fn session_attempts<T, E>(
    remaining: nat,
    delay: RetryDelay,
    outcomes: Seq<Result<T, E>>,
) -> nat
    decreases outcomes.len(),
{
    if outcomes.len() == 0 {
        0
    } else {
        match next_step(remaining, delay, outcomes[0]).1 {
            Step::Done(_) => 1,
            Step::Wait(_) => 1 + session_attempts(
                next_step(remaining, delay, outcomes[0]).0,
                delay,
                outcomes.drop_first(),
            ),
        }
    }
}

/// The result the session ends with, or `None` when `outcomes` runs out
/// before the session ends.
pub open spec fn session_result<T, E>(
    remaining: nat,
    delay: RetryDelay,
    outcomes: Seq<Result<T, E>>,
) -> Option<Result<T, E>>
    decreases outcomes.len(),
{
    if outcomes.len() == 0 {
        None
    } else {
        match next_step(remaining, delay, outcomes[0]).1 {
            Step::Done(res) => Some(res),
            Step::Wait(_) => session_result(
                next_step(remaining, delay, outcomes[0]).0,
                delay,
                outcomes.drop_first(),
            ),
        }
    }
}

/// The waits the session asks for, in order.
pub open spec fn session_waits<T, E>(
    remaining: nat,
    delay: RetryDelay,
    outcomes: Seq<Result<T, E>>,
) -> Seq<Duration>
    decreases outcomes.len(),
{
    if outcomes.len() == 0 {
        Seq::empty()
    } else {
        match next_step(remaining, delay, outcomes[0]).1 {
            Step::Done(_) => Seq::empty(),
            Step::Wait(d) => seq![d] + session_waits(
                next_step(remaining, delay, outcomes[0]).0,
                delay,
                outcomes.drop_first(),
            ),
        }
    }
}

/// Every session makes at most one attempt more than the retries allowed,
/// asks for one wait fewer than its attempts, and every wait is the
/// strategy's.
pub proof fn lemma_session_bounds<T, E>(remaining: nat, delay: RetryDelay, outcomes: Seq<Result<T, E>>)
    ensures
        session_attempts(remaining, delay, outcomes) <= remaining + 1,
        session_attempts(remaining, delay, outcomes) <= outcomes.len(),
        session_result(remaining, delay, outcomes) is Some ==> session_waits(remaining, delay, outcomes).len() + 1
            == session_attempts(remaining, delay, outcomes),
        session_result(remaining, delay, outcomes) is Some ==> session_result(remaining, delay, outcomes)
            == Some(outcomes[session_attempts(remaining, delay, outcomes) - 1]),
        forall|i: int|
            0 <= i < session_waits(remaining, delay, outcomes).len() ==> #[trigger] session_waits(
                remaining,
                delay,
                outcomes,
            )[i] == delay.wait(),
    decreases outcomes.len(),
{
    if outcomes.len() > 0 {
        let rest = outcomes.drop_first();
        match next_step(remaining, delay, outcomes[0]).1 {
            Step::Done(_) => {},
            Step::Wait(_) => {
                let next = next_step(remaining, delay, outcomes[0]).0;
                lemma_session_bounds(next, delay, rest);
                let w = session_waits(remaining, delay, outcomes);
                assert forall|i: int| 0 <= i < w.len() implies #[trigger] w[i] == delay.wait() by {
                    if i > 0 {
                        assert(w[i] == session_waits(next, delay, rest)[i - 1]);
                    }
                }
                if session_result(remaining, delay, outcomes) is Some {
                    let k = session_attempts(next, delay, rest);
                    assert(rest[k - 1] == outcomes[k as int]);
                }
            },
        }
    }
}


/// When the first `k` attempts fail, `k` retries at most are allowed and
/// attempt `k` is the last one played, or succeeds, the session makes
/// `k + 1` attempts, ends with what attempt `k` returned, and waits `k` times.
proof fn lemma_failures_then_end<T, E>(
    remaining: nat,
    delay: RetryDelay,
    outcomes: Seq<Result<T, E>>,
    k: nat,
)
    requires
        k <= remaining,
        k < outcomes.len(),
        forall|i: int| 0 <= i < k ==> (#[trigger] outcomes[i]) is Err,
        outcomes[k as int] is Ok || k == remaining,
    ensures
        session_attempts(remaining, delay, outcomes) == k + 1,
        session_result(remaining, delay, outcomes) == Some(outcomes[k as int]),
        session_waits(remaining, delay, outcomes).len() == k,
    decreases k,
{
    if k > 0 {
        let rest = outcomes.drop_first();
        assert(outcomes[0] is Err);
        assert forall|i: int| 0 <= i < k - 1 implies (#[trigger] rest[i]) is Err by {
            assert(rest[i] == outcomes[i + 1]);
        }
        assert(rest[k - 1] == outcomes[k as int]);
        lemma_failures_then_end((remaining - 1) as nat, delay, rest, (k - 1) as nat);
    }
}

/// An operation that always fails is tried once more than the policy's
/// retry count; the session returns the failure of the last attempt.
pub proof fn lemma_always_failing<T, E>(policy: RetryStrategy, outcomes: Seq<Result<T, E>>)
    requires
        outcomes.len() > policy.max_retries(),
        forall|i: int| 0 <= i < outcomes.len() ==> (#[trigger] outcomes[i]) is Err,
    ensures
        session_attempts(policy.max_retries(), policy.delay_strategy(), outcomes)
            == policy.max_retries() + 1,
        session_result(policy.max_retries(), policy.delay_strategy(), outcomes)
            == Some(outcomes[policy.max_retries() as int]),
        session_waits(policy.max_retries(), policy.delay_strategy(), outcomes).len()
            == policy.max_retries(),
{
    lemma_failures_then_end(policy.max_retries(), policy.delay_strategy(), outcomes, policy.max_retries());
}

/// An operation that fails `k` times, with `k` no more than the retry
/// count, and then succeeds, is tried `k + 1` times; the session returns
/// that success.
pub proof fn lemma_succeeds_after<T, E>(policy: RetryStrategy, outcomes: Seq<Result<T, E>>, k: nat)
    requires
        k <= policy.max_retries(),
        k < outcomes.len(),
        forall|i: int| 0 <= i < k ==> (#[trigger] outcomes[i]) is Err,
        outcomes[k as int] is Ok,
    ensures
        session_attempts(policy.max_retries(), policy.delay_strategy(), outcomes) == k + 1,
        session_result(policy.max_retries(), policy.delay_strategy(), outcomes)
            == Some(outcomes[k as int]),
        session_waits(policy.max_retries(), policy.delay_strategy(), outcomes).len() == k,
{
    lemma_failures_then_end(policy.max_retries(), policy.delay_strategy(), outcomes, k);
}

/// With no retries allowed the operation is tried exactly once, and its
/// result, success or failure, is the session's, with no wait.
pub proof fn lemma_no_retries<T, E>(policy: RetryStrategy, outcomes: Seq<Result<T, E>>)
    requires
        policy.max_retries() == 0,
        outcomes.len() >= 1,
    ensures
        session_attempts(policy.max_retries(), policy.delay_strategy(), outcomes) == 1,
        session_result(policy.max_retries(), policy.delay_strategy(), outcomes) == Some(outcomes[0]),
        session_waits(policy.max_retries(), policy.delay_strategy(), outcomes).len() == 0,
{
    lemma_failures_then_end(0, policy.delay_strategy(), outcomes, 0);
}

/// Under a fixed delay `d`, every wait of a session is `d`, from the first
/// retry to the last, and a finished session waits once per retry it made:
/// the first attempt is never delayed.
pub proof fn lemma_fixed_delay<T, E>(retries: nat, d: Duration, outcomes: Seq<Result<T, E>>)
    ensures
        forall|i: int|
            0 <= i < session_waits(retries, RetryDelay::Fixed(d), outcomes).len()
                ==> #[trigger] session_waits(retries, RetryDelay::Fixed(d), outcomes)[i] == d,
        session_result(retries, RetryDelay::Fixed(d), outcomes) is Some ==> session_waits(
            retries,
            RetryDelay::Fixed(d),
            outcomes,
        ).len() == session_attempts(retries, RetryDelay::Fixed(d), outcomes) - 1,
{
    lemma_session_bounds(retries, RetryDelay::Fixed(d), outcomes);
}

} // verus!
