use retry_future::driver::{RetryState, StepOutcome};
use retry_future::{
    Duration, Error, ExponentialRetryStrategy, InfiniteRetryStrategy, LinearRetryStrategy,
    RetryError, RetryPolicy, RetryStrategy,
};

/// Runs one retry cycle to resolution, handing the state machine the given
/// attempt outcomes in order; reports the final result and the delay (in
/// milliseconds) slept before each re-attempt.
fn drive<T, E, RS: RetryStrategy>(
    outcomes: Vec<Result<T, RetryPolicy<E>>>,
    strategy: &mut RS,
) -> (Result<T, RetryError<E>>, Vec<u64>) {
    let mut state = RetryState::new();
    let mut slept = Vec::new();
    for outcome in outcomes {
        match state.on_outcome(outcome, strategy) {
            StepOutcome::Sleep { next, delay } => {
                slept.push(delay.as_millis());
                state = next;
            }
            StepOutcome::Resolved { result } => return (result, slept),
        }
    }
    panic!("the cycle consumed every outcome without resolving");
}

#[test]
fn test_ok() {
    let mut strategy = LinearRetryStrategy::new().retry_early_returned_errors(false);
    let (result, slept) = drive::<u8, &str, _>(vec![Ok(255)], &mut strategy);
    assert_eq!(255, result.unwrap());
    assert_eq!(slept.len(), 0);
}

#[test]
fn test_fail() {
    let mut strategy =
        LinearRetryStrategy::new().max_attempts(2).retry_early_returned_errors(false);
    let (result, slept) = drive::<u8, &str, _>(vec![Err(RetryPolicy::Fail("fail"))], &mut strategy);
    let err = result.unwrap_err();
    let RetryPolicy::Fail(_) = err.errors.last().unwrap() else {
        panic!("Fail error must be returned")
    };
    assert_eq!(slept.len(), 0);
}

#[test]
fn test_number_of_attempts() {
    let mut strategy = LinearRetryStrategy::new()
        .max_attempts(7)
        .delay_between_retries(Duration::from_millis(1))
        .retry_early_returned_errors(false);
    let outcomes: Vec<Result<u8, RetryPolicy<String>>> =
        (0..8).map(|_| Err(RetryPolicy::Retry(None))).collect();
    let (result, slept) = drive(outcomes, &mut strategy);
    let err = result.unwrap_err();
    // Seven sleeps were granted; the eighth consultation reported exhaustion,
    // and the failure that triggered it is in the log too.
    assert_eq!(7, slept.len());
    assert_eq!(8, err.errors.len());
}

#[test]
fn test_return_early() {
    let mut strategy = LinearRetryStrategy::new()
        .max_attempts(7)
        .retry_early_returned_errors(false);
    let underlying = "non-integer".parse::<u32>().unwrap_err();
    let (result, slept) =
        drive::<u32, String, _>(vec![Err(RetryPolicy::early_returned(underlying))], &mut strategy);
    let err = result.unwrap_err();
    // The cycle ends at once: one logged failure, no sleep — the strategy,
    // whose budget had seven attempts left, was never consulted.
    assert_eq!(1, err.errors.len());
    assert_eq!(0, slept.len());
}

#[test]
fn scenario_terminal_failure_ends_after_one_attempt() {
    let mut strategy = LinearRetryStrategy::new().max_attempts(1);
    let (result, slept) = drive::<u8, &str, _>(vec![Err(RetryPolicy::Fail("fail"))], &mut strategy);
    let err = result.unwrap_err();
    assert_eq!(1, err.errors.len());
    assert!(matches!(err.errors[0], RetryPolicy::Fail("fail")));
    assert_eq!(0, slept.len());
}

#[test]
fn scenario_two_explicit_retries_then_success() {
    let mut strategy =
        InfiniteRetryStrategy { duration_between_retries: Duration::from_millis(1) };
    let outcomes: Vec<Result<u8, RetryPolicy<String>>> = vec![
        Err(RetryPolicy::retry_with("first".to_string())),
        Err(RetryPolicy::retry_with("second".to_string())),
        Ok(255),
    ];
    let (result, slept) = drive(outcomes, &mut strategy);
    assert_eq!(255, result.unwrap());
    // Consulted exactly twice, granting the fixed delay both times.
    assert_eq!(vec![1, 1], slept);
}

#[test]
fn scenario_early_returned_failure_suppressed() {
    let mut strategy = ExponentialRetryStrategy::new().retry_early_returned_errors(false);
    let underlying = std::io::Error::new(std::io::ErrorKind::ConnectionRefused, "no route");
    let (result, slept) =
        drive::<u8, String, _>(vec![Err(RetryPolicy::early_returned(underlying))], &mut strategy);
    let err = result.unwrap_err();
    assert_eq!(1, err.errors.len());
    assert_eq!(0, slept.len());
}

#[test]
fn accumulator_keeps_every_failure_in_order() {
    let mut strategy = LinearRetryStrategy::new()
        .max_attempts(10)
        .delay_between_retries(Duration::from_millis(1));
    let outcomes: Vec<Result<u8, RetryPolicy<u32>>> = vec![
        Err(RetryPolicy::Retry(None)),
        Err(RetryPolicy::retry_with("transient".to_string())),
        Err(RetryPolicy::Retry(None)),
        Err(RetryPolicy::Fail(7)),
    ];
    let (result, slept) = drive(outcomes, &mut strategy);
    let err = result.unwrap_err();
    assert_eq!(4, err.errors.len());
    assert_eq!(3, slept.len());
    assert!(matches!(err.errors[0], RetryPolicy::Retry(None)));
    assert!(matches!(err.errors[1], RetryPolicy::Retry(Some(_))));
    assert!(matches!(err.errors[2], RetryPolicy::Retry(None)));
    assert!(matches!(err.errors[3], RetryPolicy::Fail(7)));
    assert!(matches!(err.last_error(), Some(RetryPolicy::Fail(7))));
}

#[test]
fn fresh_cycle_observes_attempt_count_zero() {
    // The exponential delay tells the observed attempt count apart: 500ms at
    // count 0, 1000ms at count 1.
    let mut strategy = ExponentialRetryStrategy::new();
    let first: Vec<Result<u8, RetryPolicy<String>>> =
        vec![Err(RetryPolicy::Retry(None)), Err(RetryPolicy::Retry(None)), Ok(1)];
    let (result, slept) = drive(first, &mut strategy);
    assert_eq!(1, result.unwrap());
    assert_eq!(vec![500, 1000], slept);

    // An independent second cycle starts over at 0: its first delay is the
    // initial one again.
    let second: Vec<Result<u8, RetryPolicy<String>>> =
        vec![Err(RetryPolicy::Retry(None)), Ok(2)];
    let (result, slept) = drive(second, &mut strategy);
    assert_eq!(2, result.unwrap());
    assert_eq!(vec![500], slept);
}

#[test]
fn strategy_lent_by_reference_survives_the_cycle() {
    let mut strategy = LinearRetryStrategy::new()
        .max_attempts(3)
        .delay_between_retries(Duration::from_millis(2));
    let mut lent = &mut strategy;
    let outcomes: Vec<Result<u8, RetryPolicy<String>>> =
        vec![Err(RetryPolicy::Retry(None)), Ok(9)];
    let (result, slept) = drive(outcomes, &mut lent);
    assert_eq!(9, result.unwrap());
    assert_eq!(vec![2], slept);
    // The caller kept the strategy and can inspect it after the cycle.
    assert_eq!(3, strategy.max_attempts);
}

#[test]
fn fresh_state_has_no_history() {
    let state = RetryState::<String>::new();
    assert_eq!(0, state.attempts_before);
    assert_eq!(0, state.errors.len());
}

#[test]
fn error_provenance_flags() {
    assert!(!Error::msg("deliberate").is_early_returned);
    let io = std::io::Error::new(std::io::ErrorKind::TimedOut, "slow");
    assert!(!Error::new(io).is_early_returned);
    let io = std::io::Error::new(std::io::ErrorKind::TimedOut, "slow");
    assert!(Error::from_underlying(io).is_early_returned);

    match RetryPolicy::<String>::early_returned("boom".parse::<i32>().unwrap_err()) {
        RetryPolicy::Retry(Some(e)) => assert!(e.is_early_returned),
        _ => unreachable!(),
    }
    match RetryPolicy::<String>::retry_with("again".to_string()) {
        RetryPolicy::Retry(Some(e)) => assert!(!e.is_early_returned),
        _ => unreachable!(),
    }
}

#[test]
fn last_error_of_an_empty_log_is_none() {
    let err: RetryError<String> = RetryError { errors: Vec::new() };
    assert!(err.last_error().is_none());
}
