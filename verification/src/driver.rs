use vstd::prelude::*;

use crate::duration::Duration;
use crate::error::RetryError;
use crate::retry_strategy::RetryStrategy;
use crate::RetryPolicy;

verus! {

// ---------------------------------------------------------------------------
// The mathematical model of one retry cycle.
// ---------------------------------------------------------------------------

/// The bookkeeping of a running cycle: how many attempts have failed so far,
/// and the ordered log of their classified outcomes.
#[verifier::ext_equal]
pub struct DriverModel<E> {
    pub attempts: nat,
    pub errors: Seq<RetryPolicy<E>>,
}

/// What one step of the cycle decides: sleep and try again, or resolve.
#[verifier::ext_equal]
pub enum StepModel<T, E> {
    Sleep { next: DriverModel<E>, delay: Duration },
    Resolved { result: Result<T, Seq<RetryPolicy<E>>> },
}

/// The bookkeeping a cycle starts from: no failures yet, attempt count zero.
pub open spec fn initial_model<E>() -> DriverModel<E> {
    DriverModel { attempts: 0, errors: Seq::empty() }
}

/// Whether a failed outcome is refused outright: it is retryable, carries a
/// context converted from an unrelated underlying failure (early-returned),
/// and the active policy does not retry such failures. A suppressed outcome
/// resolves the cycle without the strategy being consulted at all.
pub open spec fn suppresses_early_return<E>(p: RetryPolicy<E>, retry_early: bool) -> bool {
    p matches RetryPolicy::Retry(c) && c matches Some(e) && e.is_early_returned && !retry_early
}

/// Whether handling `outcome` consults the strategy's decision function:
/// only a retryable failure that is not suppressed does.
pub open spec fn consults_strategy<T, E>(
    outcome: Result<T, RetryPolicy<E>>,
    retry_early: bool,
) -> bool {
    match outcome {
        Ok(_) => false,
        Err(p) => p matches RetryPolicy::Retry(_) && !suppresses_early_return(p, retry_early),
    }
}

/// One transition of the cycle's state machine, as a pure function.
///
/// `check` is the strategy's decision policy and `retry_early` its
/// early-return policy. A success resolves with the value at once. A failure
/// is first appended to the log — nothing is ever dropped; then: a terminal
/// failure resolves, a suppressed early-returned failure resolves without
/// `check` being consulted, and otherwise `check` is consulted at the current
/// attempt count, yielding either the delay to sleep (the count grows by
/// one) or exhaustion, which resolves.
pub open spec fn step_model<T, E>(
    m: DriverModel<E>,
    check: spec_fn(nat) -> Option<Duration>,
    retry_early: bool,
    outcome: Result<T, RetryPolicy<E>>,
) -> StepModel<T, E> {
    match outcome {
        Ok(t) => StepModel::Resolved { result: Ok(t) },
        Err(p) => {
            let errors = m.errors.push(p);
            if p matches RetryPolicy::Retry(_) && !suppresses_early_return(p, retry_early) {
                match check(m.attempts) {
                    Some(delay) => StepModel::Sleep {
                        next: DriverModel { attempts: m.attempts + 1, errors },
                        delay,
                    },
                    None => StepModel::Resolved { result: Err(errors) },
                }
            } else {
                StepModel::Resolved { result: Err(errors) }
            }
        },
    }
}

/// Where a whole cycle stands after some prefix of its attempts: still
/// between attempts, or resolved.
#[verifier::ext_equal]
pub enum CycleModel<T, E> {
    Running { state: DriverModel<E> },
    Resolved { result: Result<T, Seq<RetryPolicy<E>>> },
}

/// A whole cycle, folded over the outcomes its successive attempts produce:
/// steps are taken in order until one resolves, or the given outcomes run
/// out while the cycle is still going.
pub open spec fn run_model<T, E>(
    m: DriverModel<E>,
    check: spec_fn(nat) -> Option<Duration>,
    retry_early: bool,
    outcomes: Seq<Result<T, RetryPolicy<E>>>,
) -> CycleModel<T, E>
    decreases outcomes.len(),
{
    if outcomes.len() == 0 {
        CycleModel::Running { state: m }
    } else {
        match step_model(m, check, retry_early, outcomes[0]) {
            StepModel::Sleep { next, delay } => run_model(
                next,
                check,
                retry_early,
                outcomes.drop_first(),
            ),
            StepModel::Resolved { result } => CycleModel::Resolved { result },
        }
    }
}

// ---------------------------------------------------------------------------
// Laws of the cycle.
// ---------------------------------------------------------------------------

/// The classified failures of a run of outcomes, in order.
pub open spec fn failures_of<T, E>(
    outcomes: Seq<Result<T, RetryPolicy<E>>>,
) -> Seq<RetryPolicy<E>> {
    outcomes.map_values(|o: Result<T, RetryPolicy<E>>| o->Err_0)
}

/// Law: the accumulator never drops a failure and never invents one. Over
/// any sequence of failing attempts, while the cycle is still going the log
/// has grown by exactly those failures, in attempt order — and the attempt
/// count by one per failure; and if the cycle resolved, it resolved with the
/// log of exactly the `taken` failures consumed, in order. In particular, at
/// the moment of termination the accumulator's length equals the number of
/// failed attempts taken in the cycle (a success resolves with the value at
/// once, adding nothing).
pub proof fn lemma_accumulator_is_failure_log<T, E>(
    m: DriverModel<E>,
    check: spec_fn(nat) -> Option<Duration>,
    retry_early: bool,
    outcomes: Seq<Result<T, RetryPolicy<E>>>,
) -> (taken: int)
    requires
        forall|i: int| 0 <= i < outcomes.len() ==> outcomes[i] is Err,
    ensures
        0 <= taken <= outcomes.len(),
        (match run_model(m, check, retry_early, outcomes) {
            CycleModel::Running { state } => taken == outcomes.len() && state.errors == m.errors
                + failures_of(outcomes) && state.attempts == m.attempts + taken,
            CycleModel::Resolved { result } => 0 < taken && (result matches Err(es) && es
                == m.errors + failures_of(outcomes.take(taken))),
        }),
    decreases outcomes.len(),
{
    if outcomes.len() == 0 {
        assert(m.errors + failures_of(outcomes) =~= m.errors);
        0
    } else {
        let rest = outcomes.drop_first();
        let p0 = outcomes[0]->Err_0;
        match step_model(m, check, retry_early, outcomes[0]) {
            StepModel::Sleep { next, delay } => {
                let sub = lemma_accumulator_is_failure_log(next, check, retry_early, rest);
                let taken = sub + 1;
                match run_model(next, check, retry_early, rest) {
                    CycleModel::Running { state } => {
                        assert(next.errors + failures_of(rest) =~= m.errors + failures_of(
                            outcomes,
                        ));
                    },
                    CycleModel::Resolved { result } => {
                        assert(next.errors + failures_of(rest.take(sub)) =~= m.errors
                            + failures_of(outcomes.take(taken)));
                    },
                }
                taken
            },
            StepModel::Resolved { result } => {
                assert(m.errors.push(p0) =~= m.errors + failures_of(outcomes.take(1)));
                1
            },
        }
    }
}

/// Law: a fresh cycle starts over at attempt count zero, whatever any
/// earlier cycle did. The first transition of a cycle started from
/// [`initial_model`] depends on the strategy's decision policy only through
/// its answer at count 0: two policies that agree there drive the first
/// transition to the same place.
pub proof fn lemma_fresh_cycle_starts_at_zero<T, E>(
    c1: spec_fn(nat) -> Option<Duration>,
    c2: spec_fn(nat) -> Option<Duration>,
    retry_early: bool,
    outcome: Result<T, RetryPolicy<E>>,
)
    requires
        c1(0) == c2(0),
    ensures
        step_model(initial_model::<E>(), c1, retry_early, outcome) == step_model(
            initial_model::<E>(),
            c2,
            retry_early,
            outcome,
        ),
{
}

/// Law: early-return suppression. Under a policy that refuses early-returned
/// failures, a first attempt failing with an early-returned outcome resolves
/// the cycle at once: the accumulator holds exactly that one failure, and
/// the strategy's decision function is never consulted — the transition is
/// the same whatever it would have answered, at any count.
pub proof fn lemma_early_return_suppression<T, E>(
    check: spec_fn(nat) -> Option<Duration>,
    p: RetryPolicy<E>,
)
    requires
        suppresses_early_return(p, false),
    ensures
        (step_model::<T, E>(initial_model(), check, false, Err(p)) matches StepModel::Resolved {
            result,
        } && result matches Err(es) && es.len() == 1 && es[0] == p),
        forall|other: spec_fn(nat) -> Option<Duration>|
            step_model::<T, E>(initial_model(), other, false, Err(p)) == step_model::<T, E>(
                initial_model(),
                check,
                false,
                Err(p),
            ),
{
}

// ---------------------------------------------------------------------------
// The executable state machine.
// ---------------------------------------------------------------------------

/// The bookkeeping of one retry cycle. The caller's event loop runs the
/// current attempt, classifies what it produced, and hands the outcome to
/// [`RetryState::on_outcome`]; the answer says whether to sleep and produce
/// a fresh attempt, or to stop with the final result.
pub struct RetryState<E> {
    /// How many attempts have failed so far in this cycle.
    pub attempts_before: usize,
    /// Every failed attempt's classified outcome, in attempt order.
    pub errors: Vec<RetryPolicy<E>>,
}

impl<E> View for RetryState<E> {
    type V = DriverModel<E>;

    open spec fn view(&self) -> DriverModel<E> {
        DriverModel { attempts: self.attempts_before as nat, errors: self.errors@ }
    }
}

/// What the cycle does next after one attempt has completed.
pub enum StepOutcome<T, E> {
    /// Sleep for `delay`, then produce a fresh attempt and continue with
    /// `next`.
    Sleep { next: RetryState<E>, delay: Duration },
    /// The cycle is over: the first success, or the full failure log.
    Resolved { result: Result<T, RetryError<E>> },
}

impl<T, E> View for StepOutcome<T, E> {
    type V = StepModel<T, E>;

    open spec fn view(&self) -> StepModel<T, E> {
        match self {
            StepOutcome::Sleep { next, delay } => StepModel::Sleep { next: next@, delay: *delay },
            StepOutcome::Resolved { result } => StepModel::Resolved {
                result: match result {
                    Ok(t) => Ok(*t),
                    Err(e) => Err(e.errors@),
                },
            },
        }
    }
}

impl<E> RetryState<E> {
    /// A fresh cycle: no failures yet, attempt count zero.
    pub fn new() -> (r: Self)
        ensures
            r@ == initial_model::<E>(),
    {
        let r = RetryState { attempts_before: 0, errors: Vec::new() };
        proof {
            assert(r@ =~= initial_model::<E>());
        }
        r
    }

    /// Drives the cycle one transition forward, exactly as [`step_model`]
    /// says: the strategy is consulted — once, at the current attempt count —
    /// only for a retryable failure that the early-return policy does not
    /// suppress, and whatever it answers, its decision policy is unchanged.
    pub fn on_outcome<T, RS: RetryStrategy>(
        self,
        outcome: Result<T, RetryPolicy<E>>,
        strategy: &mut RS,
    ) -> (r: StepOutcome<T, E>)
        requires
            self.attempts_before < usize::MAX,
        ensures
            r@ == step_model(
                self@,
                (|k: nat| (*old(strategy)).spec_check(k)),
                (*old(strategy)).spec_retry_early(),
                outcome,
            ),
            forall|k: nat| (*final(strategy)).spec_check(k) == (*old(strategy)).spec_check(k),
            (*final(strategy)).spec_retry_early() == (*old(strategy)).spec_retry_early(),
            !consults_strategy(outcome, (*old(strategy)).spec_retry_early()) ==> *final(strategy)
                == *old(strategy),
    {
        match outcome {
            Ok(t) => StepOutcome::Resolved { result: Ok(t) },
            Err(p) => {
                let proceed: bool = match &p {
                    RetryPolicy::Retry(context) => match context {
                        Some(e) => !(e.is_early_returned
                            && !strategy.retry_early_returned_errors()),
                        None => true,
                    },
                    RetryPolicy::Fail(_) => false,
                };
                let RetryState { attempts_before, mut errors } = self;
                errors.push(p);
                if proceed {
                    match strategy.check_attempt(attempts_before) {
                        Ok(delay) => StepOutcome::Sleep {
                            next: RetryState { attempts_before: attempts_before + 1, errors },
                            delay,
                        },
                        Err(_) => StepOutcome::Resolved { result: Err(RetryError { errors }) },
                    }
                } else {
                    StepOutcome::Resolved { result: Err(RetryError { errors }) }
                }
            },
        }
    }
}

} // verus!
