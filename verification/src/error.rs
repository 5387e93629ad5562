use vstd::prelude::*;

use anyhow::Error as AnyhowError;

use crate::RetryPolicy;

verus! {

/// `anyhow::Error` is the opaque context value carried inside a retryable
/// outcome. The cycle's logic never looks inside it; it is stored and handed
/// back to the caller unchanged.
#[verifier::external_type_specification]
#[verifier::external_body]
pub struct ExAnyhowError(AnyhowError);

/// Relies on `anyhow::Error::msg`: builds an opaque error value out of a
/// printable message. Nothing about the resulting value is assumed.
#[verifier::external_body]
fn anyhow_msg<M: core::fmt::Display + core::fmt::Debug + Send + Sync + 'static>(
    msg: M,
) -> anyhow::Error {
    anyhow::Error::msg(msg)
}

/// Relies on `anyhow::Error::new`: wraps a standard error value, keeping its
/// cause chain. Nothing about the resulting value is assumed.
#[verifier::external_body]
fn anyhow_new<E: std::error::Error + Send + Sync + 'static>(e: E) -> anyhow::Error {
    anyhow::Error::new(e)
}

/// Relies on `Into::<anyhow::Error>::into`: type-erases an arbitrary
/// underlying failure. Nothing about the resulting value is assumed.
#[verifier::external_body]
fn anyhow_from<T: Into<anyhow::Error>>(failure: T) -> anyhow::Error {
    failure.into()
}

/// The context carried by a retryable outcome, together with its provenance:
/// `is_early_returned` is set exactly when the value was converted from an
/// unrelated underlying failure instead of being built deliberately inside
/// the attempt.
#[derive(Debug)]
pub struct Error {
    pub error: anyhow::Error,
    pub is_early_returned: bool,
}

impl Error {
    /// Context built deliberately from a printable message.
    pub fn msg<M: core::fmt::Display + core::fmt::Debug + Send + Sync + 'static>(
        msg: M,
    ) -> (r: Self)
        ensures
            !r.is_early_returned,
    {
        Error { error: anyhow_msg(msg), is_early_returned: false }
    }

    /// Context built deliberately from a standard error value.
    pub fn new<E: std::error::Error + Send + Sync + 'static>(e: E) -> (r: Self)
        ensures
            !r.is_early_returned,
    {
        Error { error: anyhow_new(e), is_early_returned: false }
    }

    /// Context converted from an unrelated underlying failure; the result is
    /// marked as early-returned.
    pub fn from_underlying<T: Into<anyhow::Error>>(failure: T) -> (r: Self)
        ensures
            r.is_early_returned,
    {
        Error { error: anyhow_from(failure), is_early_returned: true }
    }
}

/// The final error of a retry cycle: every failed attempt's classified
/// outcome, in attempt order. Nothing is ever dropped, so its length equals
/// the number of failed attempts the cycle took.
#[derive(Debug)]
pub struct RetryError<E> {
    pub errors: Vec<RetryPolicy<E>>,
}

impl<E> RetryError<E> {
    /// The last failure encountered, if any attempt failed at all.
    pub fn last_error(&self) -> (r: Option<&RetryPolicy<E>>)
        ensures
            (match r {
                Some(p) => self.errors@.len() > 0 && *p == self.errors@.last(),
                None => self.errors@.len() == 0,
            }),
    {
        if self.errors.len() == 0 {
            None
        } else {
            Some(&self.errors[self.errors.len() - 1])
        }
    }
}

/// A strategy's refusal to authorize another attempt: the budget is spent.
#[derive(Debug, Copy, Clone)]
pub struct TooManyAttempts;

} // verus!
