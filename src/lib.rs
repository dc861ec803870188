//! A retry engine: run a fallible operation again and again, as a policy
//! allows, until it succeeds or the retry budget is spent.
//!
//! The executor decides; the caller makes the waits it asks for. The
//! `session` module plays whole sessions on known attempt results and
//! states the laws they obey.

pub mod executor;
pub mod policy;
pub mod session;

pub use executor::{Retryable, Step};
pub use policy::{RetryDelay, RetryStrategy};
