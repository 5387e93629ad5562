use vstd::prelude::*;

use crate::duration::Duration;
use crate::error::TooManyAttempts;
use crate::retry_strategy::RetryStrategy;

verus! {

/// `base` raised to the power `exp`, over the mathematical naturals.
pub open spec fn pow_spec(base: nat, exp: nat) -> nat
    decreases exp,
{
    if exp == 0 {
        1
    } else {
        base * pow_spec(base, (exp - 1) as nat)
    }
}

/// `x` clipped to the range of a millisecond count.
pub open spec fn sat64(x: nat) -> u64 {
    if x > u64::MAX {
        u64::MAX
    } else {
        x as u64
    }
}

/// The delay granted at attempt count `k`: `initial × base^k` milliseconds,
/// clipped to the representable range.
pub open spec fn exponential_delay_millis(initial: u64, base: nat, k: nat) -> u64 {
    sat64((initial as nat) * pow_spec(base, k))
}

/// Exponential backoff: the delay after the `k`-th retryable failure is
/// `initial_delay × base^k`, with the budget exhausted once `max_attempts`
/// attempts have failed. A product beyond the millisecond range is clipped
/// to the largest representable delay.
#[derive(Debug, Clone, Copy)]
pub struct ExponentialRetryStrategy {
    pub base: usize,
    pub max_attempts: usize,
    pub initial_delay: Duration,
    /// See [`RetryStrategy::retry_early_returned_errors`].
    pub retry_early_returned_errors: bool,
}

impl Default for ExponentialRetryStrategy {
    /// Base two, three attempts, half a second to start with, retrying
    /// early-returned failures.
    fn default() -> (r: Self)
        ensures
            r.base == 2,
            r.max_attempts == 3,
            r.initial_delay.millis == 500,
            r.retry_early_returned_errors,
    {
        ExponentialRetryStrategy {
            base: 2,
            max_attempts: 3,
            initial_delay: Duration { millis: 500 },
            retry_early_returned_errors: true,
        }
    }
}

impl ExponentialRetryStrategy {
    pub fn new() -> (r: Self)
        ensures
            r.base == 2,
            r.max_attempts == 3,
            r.initial_delay.millis == 500,
            r.retry_early_returned_errors,
    {
        Self::default()
    }

    pub fn max_attempts(self, max_attempts: usize) -> (r: Self)
        ensures
            r == (ExponentialRetryStrategy { max_attempts, ..self }),
    {
        ExponentialRetryStrategy { max_attempts, ..self }
    }

    pub fn initial_delay(self, initial_delay: Duration) -> (r: Self)
        ensures
            r == (ExponentialRetryStrategy { initial_delay, ..self }),
    {
        ExponentialRetryStrategy { initial_delay, ..self }
    }

    /// See [`RetryStrategy::retry_early_returned_errors`].
    pub fn retry_early_returned_errors(self, retry_early_returned_errors: bool) -> (r: Self)
        ensures
            r == (ExponentialRetryStrategy { retry_early_returned_errors, ..self }),
    {
        ExponentialRetryStrategy { retry_early_returned_errors, ..self }
    }
}

impl RetryStrategy for ExponentialRetryStrategy {
    /// Exhausted exactly at `max_attempts` prior failures; the exponentially
    /// grown delay for every other count.
    open spec fn spec_check(&self, attempts_before: nat) -> Option<Duration> {
        if attempts_before == self.max_attempts {
            None
        } else {
            Some(
                Duration {
                    millis: exponential_delay_millis(
                        self.initial_delay.millis,
                        self.base as nat,
                        attempts_before,
                    ),
                },
            )
        }
    }

    open spec fn spec_retry_early(&self) -> bool {
        self.retry_early_returned_errors
    }

    fn check_attempt(&mut self, attempts_before: usize) -> (r: Result<Duration, TooManyAttempts>) {
        if self.max_attempts == attempts_before {
            Err(TooManyAttempts)
        } else {
            let base: u64 = self.base as u64;
            let init: u64 = self.initial_delay.millis;
            let ghost b: nat = base as nat;
            let mut millis: u64 = init;
            let mut i: usize = 0;
            proof {
                assert(pow_spec(b, 0) == 1);
                assert((init as nat) * pow_spec(b, 0) == init) by (nonlinear_arith)
                    requires
                        pow_spec(b, 0) == 1,
                ;
            }
            while i < attempts_before
                invariant
                    i <= attempts_before,
                    base == b,
                    millis == exponential_delay_millis(init, b, i as nat),
                decreases attempts_before - i,
            {
                let next = match millis.checked_mul(base) {
                    Some(v) => v,
                    None => u64::MAX,
                };
                proof {
                    lemma_delay_step(init, b, i as nat, millis, next);
                }
                millis = next;
                i = i + 1;
            }
            Ok(Duration { millis })
        }
    }

    fn retry_early_returned_errors(&self) -> bool {
        self.retry_early_returned_errors
    }
}

/// One multiplication step of the delay computation: clipping after each
/// multiplication lands on the same value as one clip of the whole product.
proof fn lemma_delay_step(init: u64, b: nat, k: nat, millis: u64, next: u64)
    requires
        millis == exponential_delay_millis(init, b, k),
        next == sat64((millis as nat) * b),
    ensures
        next == exponential_delay_millis(init, b, (k + 1) as nat),
{
    let pw: nat = pow_spec(b, k);
    let pk: nat = (init as nat) * pw;
    let pk1: nat = (init as nat) * pow_spec(b, k + 1);
    assert(pow_spec(b, k + 1) == b * pw);
    assert(pk1 == pk * b) by (nonlinear_arith)
        requires
            pk1 == (init as nat) * (b * pw),
            pk == (init as nat) * pw,
    ;
    if pk > u64::MAX {
        assert(millis == u64::MAX);
        if b == 0 {
            assert(pk1 == 0) by (nonlinear_arith)
                requires
                    pk1 == pk * b,
                    b == 0,
            ;
        } else {
            assert(pk1 > u64::MAX) by (nonlinear_arith)
                requires
                    pk1 == pk * b,
                    pk > u64::MAX,
                    b >= 1,
            ;
            if (millis as nat) * b <= u64::MAX {
                assert(b < 2 || (u64::MAX as nat) * b > u64::MAX) by (nonlinear_arith);
            }
        }
    }
}

/// The delay law of the exponential strategy: at every attempt count other
/// than the budget, whenever the exact product fits the millisecond range,
/// the granted delay is exactly `initial_delay × base^k` — no drift.
pub proof fn lemma_exponential_delay(s: ExponentialRetryStrategy, k: nat)
    requires
        k != s.max_attempts,
        (s.initial_delay.millis as nat) * pow_spec(s.base as nat, k) <= u64::MAX,
    ensures
        s.spec_check(k) == Some(
            Duration {
                millis: ((s.initial_delay.millis as nat) * pow_spec(s.base as nat, k)) as u64,
            },
        ),
{
}

} // verus!
