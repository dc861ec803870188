use rand::Rng;
use retryable::{RetryDelay, RetryStrategy, Retryable, Step};
use std::time::{Duration, Instant};

/// Wait until `d` has passed.
fn pause(d: Duration) {
    let start = Instant::now();
    while start.elapsed() < d {
        std::hint::spin_loop();
    }
}

/// Drive a session to its end, waiting as each step asks.
fn run<F, T, E>(r: &mut Retryable<F, T, E>) -> Result<T, E>
where
    F: FnMut() -> Result<T, E>,
{
    loop {
        match r.step() {
            Step::Done(res) => return res,
            Step::Wait(d) => pause(d),
        }
    }
}

/// A policy that retries at once, as the plain retry form does.
fn immediate(retries: usize) -> RetryStrategy {
    RetryStrategy::new(retries, RetryDelay::Fixed(Duration::from_secs(0)))
}

/// Run `f` with `retries` immediate retries.
fn retry_now<F, T, E>(f: F, retries: usize) -> Result<T, E>
where
    F: FnMut() -> Result<T, E>,
{
    let mut r = Retryable::new(f, immediate(retries));
    run(&mut r)
}

/// An operation that fails `count` times, then succeeds on every call.
fn succeed_after(count: usize) -> impl FnMut() -> Result<(), ()> {
    let mut left = count;
    move || {
        if left > 0 {
            left -= 1;
            return Err(());
        }
        Ok(())
    }
}

/// Fail with the given probability, in percent.
fn sometimes_fail(failure_rate: u8) -> Result<(), ()> {
    assert!(failure_rate <= 100, "Failure rate is a % (0..=100)");
    let mut rng = rand::thread_rng();
    let val = rng.gen_range(0u8, 100u8);
    if val > failure_rate {
        Ok(())
    } else {
        Err(())
    }
}

fn one() -> u32 {
    1
}

fn double(a: u32) -> u32 {
    a + a
}

fn add(a: u32, b: u32) -> u32 {
    a + b
}

#[test]
fn test_wrapper() {
    // A function with fixed arguments, adapted into an operation.
    let ok = |v: u32| -> Result<u32, ()> { Ok(v) };
    assert_eq!(retry_now(|| ok(one()), 0), Ok(1));
    assert_eq!(retry_now(|| ok(double(2)), 0), Ok(4));
    assert_eq!(retry_now(|| ok(double(2)), 3), Ok(4));
    assert_eq!(retry_now(|| ok(add(2, 4)), 0), Ok(6));
    assert_eq!(retry_now(|| ok(add(2, 4)), 3), Ok(6));
}

#[test]
fn test_succeed_after() {
    let mut eventually_succeed = succeed_after(3);
    assert!(eventually_succeed().is_err());
    assert!(eventually_succeed().is_err());
    assert!(eventually_succeed().is_err());
    assert!(eventually_succeed().is_ok());
    assert!(eventually_succeed().is_ok());
}

#[test]
fn test_retry_default() {
    let eventually_succeed = succeed_after(1);
    let res = retry_now(eventually_succeed, 3);
    assert!(res.is_ok());

    let fallible = || sometimes_fail(10);
    let res = retry_now(fallible, 3);
    assert!(res.is_ok());

    let res = retry_now(|| sometimes_fail(10), 3);
    assert!(res.is_ok());
}

#[test]
fn test_retry_retries_fail() {
    let res = retry_now(succeed_after(3), 2);
    assert!(res.is_err());

    let will_always_fail = || -> Result<(), ()> { Err(()) };
    let res = retry_now(will_always_fail, 3);
    assert!(res.is_err());
}

#[test]
fn test_retry_retries_success() {
    let eventually_succeed = succeed_after(1);
    let res = retry_now(eventually_succeed, 3);
    assert!(res.is_ok());
}

#[test]
fn test_retryable_simple() {
    let strategy = RetryStrategy::default().with_retries(3).to_owned();
    let mut r = Retryable::new(succeed_after(2), strategy);
    let res = run(&mut r);
    assert!(res.is_ok());
}

#[test]
fn test_retryable_macro() {
    let start = Instant::now();
    let eventually_succeed = succeed_after(2);
    let strategy = RetryStrategy::default().with_retries(3).to_owned();
    let mut r = Retryable::new(eventually_succeed, strategy);
    let res = run(&mut r);
    assert!(res.is_ok());
    assert!(start.elapsed() > Duration::from_secs(3));
}

#[test]
fn test_retryable_macro_args_retries() {
    let strategy = RetryStrategy::default()
        .with_delay(RetryDelay::Fixed(Duration::from_secs(1)))
        .to_owned();
    let mut r = Retryable::new(|| sometimes_fail(10), strategy.clone());
    let res = run(&mut r);
    assert!(res.is_ok());
    let mut r = Retryable::new(|| sometimes_fail(10), strategy);
    let res = run(&mut r);
    assert!(res.is_ok());
}

#[test]
fn test_retryable_macro_args_delay() {
    let start = Instant::now();
    let strategy = RetryStrategy::default()
        .with_delay(RetryDelay::Fixed(Duration::from_secs(3)))
        .to_owned();
    let mut r = Retryable::new(succeed_after(2), strategy);
    let res = run(&mut r);
    assert!(res.is_ok());
    assert!(start.elapsed() > Duration::from_secs(6));

    let start = Instant::now();
    let strategy = RetryStrategy::default()
        .with_delay(RetryDelay::Fixed(Duration::from_secs(3)))
        .to_owned();
    let mut r = Retryable::new(succeed_after(2), strategy);
    let res = run(&mut r);
    assert!(res.is_ok());
    assert!(start.elapsed() > Duration::from_secs(6));
}
