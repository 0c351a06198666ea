//! Circuit breaker that guards the Gemini HTTP client.
//!
//! Time is a monotonic clock reading in nanoseconds, supplied by the caller.
use vstd::prelude::*;

use crate::error::InternalVoiceError;

verus! {

/// Consecutive-failure counter with an optional "open until" deadline.
#[derive(Debug, Clone, Copy)]
pub struct CircuitBreaker {
    pub consecutive_failures: u32,
    pub open_until: Option<u64>,
}

/// A closed breaker with no recorded failure.
pub open spec fn fresh_breaker() -> CircuitBreaker {
    CircuitBreaker { consecutive_failures: 0, open_until: None }
}

/// Whether a request is let through at `now`, and the breaker afterwards.
/// An elapsed deadline closes the breaker and forgets the failures.
pub open spec fn check_spec(b: CircuitBreaker, now: u64) -> (bool, CircuitBreaker) {
    match b.open_until {
        Some(deadline) => if now < deadline {
            (false, b)
        } else {
            (true, fresh_breaker())
        },
        None => (true, b),
    }
}

/// The breaker after a successful request.
pub open spec fn success_spec(b: CircuitBreaker) -> CircuitBreaker {
    fresh_breaker()
}

/// The breaker after a failed request at `now`: the counter grows, and once it
/// reaches `threshold` the breaker stays open for `reset` nanoseconds from `now`.
pub open spec fn failure_spec(b: CircuitBreaker, now: u64, threshold: u32, reset: u64) -> CircuitBreaker {
    let f = (b.consecutive_failures + 1) as u32;
    if f >= threshold {
        CircuitBreaker { consecutive_failures: f, open_until: Some((now + reset) as u64) }
    } else {
        CircuitBreaker { consecutive_failures: f, open_until: b.open_until }
    }
}

/// What `record_failure` needs to stay within its integer types.
pub open spec fn failure_fits(b: CircuitBreaker, now: u64, threshold: u32, reset: u64) -> bool {
    &&& b.consecutive_failures < u32::MAX
    &&& b.consecutive_failures + 1 >= threshold ==> now + reset <= u64::MAX
}

/// The message of the error returned while the breaker is open.
pub open spec fn breaker_open_message() -> Seq<char> {
    "circuit breaker is open after repeated failures"@
}

impl CircuitBreaker {
    /// A closed breaker.
    pub fn new() -> (b: CircuitBreaker)
        ensures
            b == fresh_breaker(),
    {
        CircuitBreaker { consecutive_failures: 0, open_until: None }
    }

    /// Lets a request through unless the breaker is open at `now`.
    pub fn ensure_closed(&mut self, now: u64) -> (r: Result<(), InternalVoiceError>)
        ensures
            r is Ok == check_spec(*old(self), now).0,
            *final(self) == check_spec(*old(self), now).1,
            r matches Err(e) ==> (e matches InternalVoiceError::Gemini(m) && m@ == breaker_open_message()),
    {
        if let Some(deadline) = self.open_until {
            if now < deadline {
                return Err(InternalVoiceError::Gemini(
                    String::from_str("circuit breaker is open after repeated failures"),
                ));
            }
            self.open_until = None;
            self.consecutive_failures = 0;
        }
        Ok(())
    }

    /// Records a successful request.
    pub fn record_success(&mut self)
        ensures
            *final(self) == success_spec(*old(self)),
    {
        self.consecutive_failures = 0;
        self.open_until = None;
    }

    /// Records a failed request at `now`.
    pub fn record_failure(&mut self, now: u64, threshold: u32, reset: u64)
        requires
            failure_fits(*old(self), now, threshold, reset),
        ensures
            *final(self) == failure_spec(*old(self), now, threshold, reset),
    {
        self.consecutive_failures = self.consecutive_failures + 1;
        if self.consecutive_failures >= threshold {
            self.open_until = Some(now + reset);
        }
    }
}

/// A run of failed requests at the given times, with no request checked in between.
pub open spec fn failures_spec(b: CircuitBreaker, times: Seq<u64>, threshold: u32, reset: u64) -> CircuitBreaker
    decreases times.len(),
{
    if times.len() == 0 {
        b
    } else {
        failure_spec(failures_spec(b, times.drop_last(), threshold, reset), times.last(), threshold, reset)
    }
}

/// A success always closes the breaker: the next request is let through, whenever it comes.
pub proof fn law_success_closes(b: CircuitBreaker, now: u64)
    ensures
        check_spec(success_spec(b), now).0,
        success_spec(b).consecutive_failures == 0,
{
}

/// A failure that brings the count to the threshold opens the breaker: every request
/// from then until `reset` nanoseconds later is refused, and the refusal changes nothing.
pub proof fn law_threshold_opens(b: CircuitBreaker, t: u64, threshold: u32, reset: u64, later: u64)
    requires
        failure_fits(b, t, threshold, reset),
        b.consecutive_failures + 1 >= threshold,
        t <= later < t + reset,
    ensures
        !check_spec(failure_spec(b, t, threshold, reset), later).0,
        check_spec(failure_spec(b, t, threshold, reset), later).1 == failure_spec(b, t, threshold, reset),
{
}

/// Below the threshold a failure does not open a closed breaker.
pub proof fn law_below_threshold_stays_closed(b: CircuitBreaker, t: u64, threshold: u32, reset: u64, later: u64)
    requires
        failure_fits(b, t, threshold, reset),
        b.open_until is None,
        b.consecutive_failures + 1 < threshold,
    ensures
        check_spec(failure_spec(b, t, threshold, reset), later).0,
{
}

/// Once `reset` nanoseconds have passed since the opening failure, the next request
/// is let through and the failure count starts again from zero.
pub proof fn law_reopens_after_reset(b: CircuitBreaker, t: u64, threshold: u32, reset: u64, later: u64)
    requires
        failure_fits(b, t, threshold, reset),
        b.consecutive_failures + 1 >= threshold,
        later >= t + reset,
    ensures
        check_spec(failure_spec(b, t, threshold, reset), later).0,
        check_spec(failure_spec(b, t, threshold, reset), later).1 == fresh_breaker(),
{
}

/// From a closed breaker, `n` consecutive failures count to `n`; once `n` reaches the
/// threshold the breaker is open until `reset` nanoseconds after the last failure.
pub proof fn law_consecutive_failures(times: Seq<u64>, threshold: u32, reset: u64)
    requires
        times.len() < u32::MAX,
        forall|i: int| 0 <= i < times.len() ==> times[i] + reset <= u64::MAX,
    ensures
        failures_spec(fresh_breaker(), times, threshold, reset).consecutive_failures == times.len(),
        times.len() >= 1 && times.len() >= threshold ==> failures_spec(fresh_breaker(), times, threshold, reset).open_until
            == Some((times.last() + reset) as u64),
        times.len() < threshold ==> failures_spec(fresh_breaker(), times, threshold, reset).open_until is None,
    decreases times.len(),
{
    if times.len() > 0 {
        let prefix = times.drop_last();
        assert forall|i: int| 0 <= i < prefix.len() implies prefix[i] + reset <= u64::MAX by {
            assert(prefix[i] == times[i]);
        }
        law_consecutive_failures(prefix, threshold, reset);
    }
}

} // verus!
