//! The retry policy for requests.
//!
//! A request is attempted, and its outcome decides what happens next: a
//! success, or any outcome once the configured number of retries is used up,
//! is returned as it is; a failure is otherwise retried after the delay
//! that the error itself asks for, and returned as it is when the error asks
//! for none. The caller performs the attempts and the waiting; this module
//! makes every decision.

use vstd::prelude::*;
use core::time::Duration;

verus! {

/// Where a sequence of attempts stands: how many retries were made so far,
/// and how many are allowed.
pub struct RetryState {
    attempt: usize,
    max_retry_count: usize,
}

/// What to do once an attempt has finished.
pub enum RetryStep {
    /// Hand the attempt's result to the caller.
    Return,
    /// The attempt failed and retries are left: ask the error, with these
    /// numbers, how long to wait before the next attempt.
    ConsultError { attempt: usize, max_retry_count: usize },
}

/// What to do once the error has said how long to wait.
pub enum RetryDelay {
    /// The error is not to be retried: hand it to the caller.
    Return,
    /// Wait this long, then attempt again.
    SleepThenRetry(Duration),
}

impl RetryState {
    /// The retries made never pass the retries allowed.
    #[verifier::type_invariant]
    spec fn retries_within_limit(self) -> bool {
        self.attempt <= self.max_retry_count
    }

    /// Retries made so far.
    pub closed spec fn attempts_made(self) -> nat {
        self.attempt as nat
    }

    /// Retries allowed.
    pub closed spec fn retry_limit(self) -> nat {
        self.max_retry_count as nat
    }

    /// A state reached by the policy never has more retries than allowed.
    pub open spec fn wf(self) -> bool {
        self.attempts_made() <= self.retry_limit()
    }

    /// The decision after an attempt that succeeded or not.
    pub open spec fn step_after(self, succeeded: bool) -> RetryStep {
        if self.attempts_made() >= self.retry_limit() || succeeded {
            RetryStep::Return
        } else {
            RetryStep::ConsultError {
                attempt: self.attempts_made() as usize,
                max_retry_count: self.retry_limit() as usize,
            }
        }
    }

    /// The state after the error's answer `delay`: one more retry counted
    /// when it asked for a delay, unchanged otherwise.
    pub closed spec fn after_delay(self, delay: Option<Duration>) -> RetryState {
        match delay {
            Some(_) => RetryState { attempt: (self.attempt + 1) as usize, max_retry_count: self.max_retry_count },
            None => self,
        }
    }

    /// What `after_delay` does to the counts, when a retry is left.
    pub proof fn lemma_after_delay(self, delay: Option<Duration>)
        requires
            self.attempts_made() < self.retry_limit(),
        ensures
            self.after_delay(delay).retry_limit() == self.retry_limit(),
            self.after_delay(delay).attempts_made() == self.attempts_made() + (if delay is Some { 1int } else { 0int }),
    {
    }

    /// Starts a sequence of attempts that allows `max_retry_count` retries.
    pub fn new(max_retry_count: usize) -> (s: Self)
        ensures
            s.attempts_made() == 0,
            s.retry_limit() == max_retry_count,
            s.wf(),
    {
        RetryState { attempt: 0, max_retry_count }
    }

    /// Retries made so far.
    pub fn attempt(&self) -> (n: usize)
        ensures
            n == self.attempts_made(),
    {
        self.attempt
    }

    /// Retries allowed.
    pub fn max_retry_count(&self) -> (n: usize)
        ensures
            n == self.retry_limit(),
    {
        self.max_retry_count
    }

    /// Decides what follows an attempt: its result is returned when it
    /// succeeded or when no retries are left; otherwise the error is asked
    /// for a delay.
    pub fn on_result(&self, succeeded: bool) -> (step: RetryStep)
        ensures
            self.wf(),
            step == self.step_after(succeeded),
    {
        proof {
            use_type_invariant(self);
        }
        if self.attempt >= self.max_retry_count || succeeded {
            RetryStep::Return
        } else {
            RetryStep::ConsultError { attempt: self.attempt, max_retry_count: self.max_retry_count }
        }
    }

    /// Decides what follows the error's answer: with a delay, wait and try
    /// again, counting one more retry; without one, return the error.
    pub fn on_delay(&mut self, delay: Option<Duration>) -> (d: RetryDelay)
        requires
            old(self).attempts_made() < old(self).retry_limit(),
        ensures
            *final(self) == old(self).after_delay(delay),
            final(self).retry_limit() == old(self).retry_limit(),
            final(self).wf(),
            match delay {
                Some(t) => d == RetryDelay::SleepThenRetry(t) && final(self).attempts_made() == old(self).attempts_made() + 1,
                None => d == RetryDelay::Return && final(self).attempts_made() == old(self).attempts_made(),
            },
    {
        match delay {
            Some(t) => {
                self.attempt = self.attempt + 1;
                RetryDelay::SleepThenRetry(t)
            },
            None => RetryDelay::Return,
        }
    }
}

/// How many attempts the policy makes from state `s` when the attempts turn
/// out as `outcomes` says, each entry telling whether the attempt succeeded
/// and which delay its error asks for: each attempt is followed by the
/// decision of `on_result`, and, when the error is consulted, by the state
/// that `on_delay` leaves.
pub open spec fn attempts_from(s: RetryState, outcomes: Seq<(bool, Option<Duration>)>) -> nat
    decreases outcomes.len(),
{
    if outcomes.len() == 0 {
        0
    } else {
        match s.step_after(outcomes[0].0) {
            RetryStep::Return => 1,
            RetryStep::ConsultError { .. } => match outcomes[0].1 {
                None => 1,
                Some(_) => 1 + attempts_from(s.after_delay(outcomes[0].1), outcomes.drop_first()),
            },
        }
    }
}

/// A request is attempted at least once, and at most once more than the
/// retries still allowed, whatever its attempts and errors turn out to be;
/// from a fresh state, at most `max_retry_count + 1` times.
pub proof fn lemma_attempts_bounded(s: RetryState, outcomes: Seq<(bool, Option<Duration>)>)
    requires
        s.wf(),
    ensures
        outcomes.len() > 0 ==> attempts_from(s, outcomes) >= 1,
        attempts_from(s, outcomes) <= s.retry_limit() - s.attempts_made() + 1,
    decreases outcomes.len(),
{
    if outcomes.len() > 0 {
        if s.step_after(outcomes[0].0) is ConsultError && outcomes[0].1 is Some {
            s.lemma_after_delay(outcomes[0].1);
            lemma_attempts_bounded(s.after_delay(outcomes[0].1), outcomes.drop_first());
        }
    }
}

/// The policy keeps its state well formed: the error is only consulted
/// when a retry is left, so counting one more never passes the limit.
pub proof fn lemma_retry_preserves_wf(s: RetryState, succeeded: bool, delay: Option<Duration>)
    requires
        s.wf(),
        s.step_after(succeeded) is ConsultError,
    ensures
        s.after_delay(delay).wf(),
{
    s.lemma_after_delay(delay);
}

} // verus!
