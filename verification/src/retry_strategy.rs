use vstd::prelude::*;

use crate::duration::Duration;
use crate::error::TooManyAttempts;

pub mod exponential;
pub mod infinite;
pub mod linear;

pub use exponential::ExponentialRetryStrategy;
pub use infinite::InfiniteRetryStrategy;
pub use linear::LinearRetryStrategy;

verus! {

/// The backoff protocol of a retry cycle.
///
/// `check_attempt` is consulted once after each retryable failure with the
/// number of failed attempts so far; it answers either how long to sleep
/// before the next attempt or that the budget is exhausted. The decision is
/// a pure function of the strategy's policy and the attempt count, pinned
/// down by `spec_check`: a strategy may keep private instrumentation that
/// changes on each call, but its policy — every future answer, and whether
/// early-returned failures are retried — stays what it was.
pub trait RetryStrategy {
    /// The decision policy: the delay granted for a given count of prior
    /// failed attempts, or `None` once the budget is exhausted at that count.
    spec fn spec_check(&self, attempts_before: nat) -> Option<Duration>;

    /// Whether failures that were early-returned out of an attempt (rather
    /// than deliberately classified as retryable) are retried at all. They
    /// are, unless a strategy says otherwise.
    open spec fn spec_retry_early(&self) -> bool {
        true
    }

    /// `attempts_before` is the number of attempts that have already failed
    /// in this cycle; the answer is the delay to sleep before the next
    /// attempt, or `TooManyAttempts` if the budget is spent.
    fn check_attempt(&mut self, attempts_before: usize) -> (r: Result<Duration, TooManyAttempts>)
        ensures
            (match r {
                Ok(d) => old(self).spec_check(attempts_before as nat) == Some(d),
                Err(_) => old(self).spec_check(attempts_before as nat) is None,
            }),
            forall|k: nat| final(self).spec_check(k) == old(self).spec_check(k),
            final(self).spec_retry_early() == old(self).spec_retry_early(),
    ;

    /// The early-return policy; see [`RetryPolicy::early_returned`](crate::RetryPolicy::early_returned).
    fn retry_early_returned_errors(&self) -> (r: bool)
        ensures
            r == self.spec_retry_early(),
    ;
}

impl<T: RetryStrategy> RetryStrategy for &mut T {
    open spec fn spec_check(&self, attempts_before: nat) -> Option<Duration> {
        (**self).spec_check(attempts_before)
    }

    open spec fn spec_retry_early(&self) -> bool {
        (**self).spec_retry_early()
    }

    fn check_attempt(&mut self, attempts_before: usize) -> (r: Result<Duration, TooManyAttempts>) {
        (**self).check_attempt(attempts_before)
    }

    fn retry_early_returned_errors(&self) -> (r: bool) {
        (**self).retry_early_returned_errors()
    }
}

} // verus!
