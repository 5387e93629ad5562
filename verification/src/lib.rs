//! Retry-until-resolved combinator core.
//!
//! A retry cycle repeatedly runs freshly produced attempts of an unreliable
//! operation. Each attempt resolves either to a success or to a
//! [`RetryPolicy`] failure; failed attempts are accumulated in order, and a
//! pluggable [`RetryStrategy`](retry_strategy::RetryStrategy) decides how
//! long to wait before the next attempt, or that the budget is exhausted.
//! The decision logic of the cycle lives in [`driver`]; the surrounding
//! event loop (running an attempt, arming a timer) is left to the caller.

use vstd::prelude::*;

pub mod driver;
pub mod duration;
pub mod error;
pub mod retry_strategy;

pub use duration::Duration;
pub use error::{Error, RetryError, TooManyAttempts};
pub use retry_strategy::{
    ExponentialRetryStrategy, InfiniteRetryStrategy, LinearRetryStrategy, RetryStrategy,
};

verus! {

/// The classified result of one failed attempt.
///
/// `Retry` means the attempt may be tried again, subject to the strategy's
/// approval; it optionally carries an [`Error`] with context. `Fail` is a
/// terminal failure that always ends the cycle at once.
///
/// An attempt that propagates an unrelated underlying failure (rather than
/// deliberately asking for another try) carries an [`Error`] whose
/// `is_early_returned` flag is set; see [`RetryPolicy::early_returned`].
#[derive(Debug)]
pub enum RetryPolicy<E = String> {
    Retry(Option<Error>),
    /// Unrecoverable error: the cycle resolves immediately.
    Fail(E),
}

impl<E> RetryPolicy<E> {
    /// Classifies an underlying failure as retryable, marked as having been
    /// returned early: the failure happened before the attempt reached its
    /// own classification logic. A strategy whose
    /// `retry_early_returned_errors` answer is `false` refuses to retry such
    /// an outcome.
    pub fn early_returned<T: Into<anyhow::Error>>(failure: T) -> (r: Self)
        ensures
            (r matches RetryPolicy::Retry(c) && c matches Some(e) && e.is_early_returned),
    {
        RetryPolicy::Retry(Some(Error::from_underlying(failure)))
    }

    /// A deliberate request to try again, with a context message.
    pub fn retry_with<M: core::fmt::Display + core::fmt::Debug + Send + Sync + 'static>(
        msg: M,
    ) -> (r: Self)
        ensures
            (r matches RetryPolicy::Retry(c) && c matches Some(e) && !e.is_early_returned),
    {
        RetryPolicy::Retry(Some(Error::msg(msg)))
    }
}

} // verus!
