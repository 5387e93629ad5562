use vstd::prelude::*;

use crate::duration::Duration;
use crate::error::TooManyAttempts;
use crate::retry_strategy::RetryStrategy;

verus! {

/// Retry forever: the same delay after every retryable failure, and the
/// budget is never exhausted.
#[derive(Debug, Clone, Copy)]
pub struct InfiniteRetryStrategy {
    pub duration_between_retries: Duration,
}

impl RetryStrategy for InfiniteRetryStrategy {
    /// A delay for every attempt count: never exhausted.
    open spec fn spec_check(&self, attempts_before: nat) -> Option<Duration> {
        Some(self.duration_between_retries)
    }

    fn check_attempt(&mut self, attempts_before: usize) -> (r: Result<Duration, TooManyAttempts>) {
        Ok(self.duration_between_retries)
    }

    fn retry_early_returned_errors(&self) -> bool {
        true
    }
}

} // verus!
