use vstd::prelude::*;

verus! {

/// A span of time, counted in whole milliseconds.
///
/// Backoff delays are plain millisecond counts so that every delay a
/// strategy computes can be reasoned about arithmetically. Callers that
/// hand a delay to a timer convert the count to their timer's own type.
#[derive(Debug, Clone, Copy, PartialEq, Eq, Structural)]
pub struct Duration {
    pub millis: u64,
}

impl Duration {
    /// The duration of `millis` milliseconds.
    pub fn from_millis(millis: u64) -> (r: Duration)
        ensures
            r.millis == millis,
    {
        Duration { millis }
    }

    /// The duration of `secs` whole seconds.
    pub fn from_secs(secs: u64) -> (r: Duration)
        requires
            secs * 1000 <= u64::MAX,
        ensures
            r.millis == secs * 1000,
    {
        Duration { millis: secs * 1000 }
    }

    /// The number of whole milliseconds this duration spans.
    pub fn as_millis(&self) -> (r: u64)
        ensures
            r == self.millis,
    {
        self.millis
    }
}

} // verus!
