use vstd::prelude::*;

use crate::duration::Duration;
use crate::error::TooManyAttempts;
use crate::retry_strategy::RetryStrategy;

verus! {

/// Constant backoff: the same delay after every retryable failure, with the
/// budget exhausted once `max_attempts` attempts have failed.
#[derive(Debug, Clone, Copy)]
pub struct LinearRetryStrategy {
    pub max_attempts: usize,
    pub delay_between_retries: Duration,
    /// See [`RetryStrategy::retry_early_returned_errors`].
    pub retry_early_returned_errors: bool,
}

impl Default for LinearRetryStrategy {
    /// Five attempts, half a second apart, retrying early-returned failures.
    fn default() -> (r: Self)
        ensures
            r.max_attempts == 5,
            r.delay_between_retries.millis == 500,
            r.retry_early_returned_errors,
    {
        LinearRetryStrategy {
            max_attempts: 5,
            delay_between_retries: Duration { millis: 500 },
            retry_early_returned_errors: true,
        }
    }
}

impl LinearRetryStrategy {
    pub fn new() -> (r: Self)
        ensures
            r.max_attempts == 5,
            r.delay_between_retries.millis == 500,
            r.retry_early_returned_errors,
    {
        Self::default()
    }

    pub fn max_attempts(self, max_attempts: usize) -> (r: Self)
        ensures
            r == (LinearRetryStrategy { max_attempts, ..self }),
    {
        LinearRetryStrategy { max_attempts, ..self }
    }

    pub fn delay_between_retries(self, delay_between_retries: Duration) -> (r: Self)
        ensures
            r == (LinearRetryStrategy { delay_between_retries, ..self }),
    {
        LinearRetryStrategy { delay_between_retries, ..self }
    }

    /// See [`RetryStrategy::retry_early_returned_errors`].
    pub fn retry_early_returned_errors(self, retry_early_returned_errors: bool) -> (r: Self)
        ensures
            r == (LinearRetryStrategy { retry_early_returned_errors, ..self }),
    {
        LinearRetryStrategy { retry_early_returned_errors, ..self }
    }
}

impl RetryStrategy for LinearRetryStrategy {
    /// Exhausted exactly at `max_attempts` prior failures; the same constant
    /// delay for every earlier count.
    open spec fn spec_check(&self, attempts_before: nat) -> Option<Duration> {
        if attempts_before == self.max_attempts {
            None
        } else {
            Some(self.delay_between_retries)
        }
    }

    open spec fn spec_retry_early(&self) -> bool {
        self.retry_early_returned_errors
    }

    fn check_attempt(&mut self, attempts_before: usize) -> (r: Result<Duration, TooManyAttempts>) {
        if self.max_attempts == attempts_before {
            Err(TooManyAttempts)
        } else {
            Ok(self.delay_between_retries)
        }
    }

    fn retry_early_returned_errors(&self) -> bool {
        self.retry_early_returned_errors
    }
}

/// The budget law of the constant strategy: with `max_attempts = n`, the
/// decision is `Exhausted` exactly at attempt count `n`, and a delay — the
/// configured one — is granted for every count below `n`.
pub proof fn lemma_linear_exhaustion(s: LinearRetryStrategy, k: nat)
    ensures
        s.spec_check(k) is None <==> k == s.max_attempts,
        k < s.max_attempts ==> s.spec_check(k) == Some(s.delay_between_retries),
{
}

} // verus!
