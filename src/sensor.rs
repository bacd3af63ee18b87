use vstd::prelude::*;

verus! {

/// Attempts per sensor reading when nothing else is configured.
pub const DEFAULT_MAX_ATTEMPTS: u32 = 3;

/// Pause between two attempts when nothing else is configured; longer than
/// the sensor's minimum interval between two samples.
pub const DEFAULT_RETRY_DELAY_MS: u64 = 2200;

/// What the caller does after a single-shot read.
#[derive(Clone, Copy, Debug, PartialEq, Eq, Structural)]
pub enum RetryStep {
    /// The read succeeded: use its sample, make no further attempt.
    Render,
    /// The read failed: pause this long, then read again.
    WaitThenRetry { delay_ms: u64 },
    /// Every attempt failed: no sample this tick.
    GiveUp,
}

/// The bounded retry policy of one sensor reading.
pub struct SensorRetry {
    max_attempts: u32,
    retry_delay_ms: u64,
    attempts: u32,
}

/// The step after a read that `succeeded`, when `attempts` reads had been
/// made before it out of at most `max`.
pub open spec fn retry_step(max: nat, delay_ms: u64, attempts: nat, succeeded: bool) -> RetryStep {
    if attempts >= max {
        RetryStep::GiveUp
    } else if succeeded {
        RetryStep::Render
    } else if attempts + 1 < max {
        RetryStep::WaitThenRetry { delay_ms }
    } else {
        RetryStep::GiveUp
    }
}

impl SensorRetry {
    pub closed spec fn max_attempts_spec(&self) -> nat {
        self.max_attempts as nat
    }

    pub closed spec fn retry_delay_spec(&self) -> u64 {
        self.retry_delay_ms
    }

    pub closed spec fn attempts_spec(&self) -> nat {
        self.attempts as nat
    }

    /// A reading that will make at most `max_attempts` reads, pausing
    /// `retry_delay_ms` after each failed one that is not the last.
    pub fn new(max_attempts: u32, retry_delay_ms: u64) -> (r: SensorRetry)
        ensures
            r.max_attempts_spec() == max_attempts as nat,
            r.retry_delay_spec() == retry_delay_ms,
            r.attempts_spec() == 0,
    {
        SensorRetry { max_attempts, retry_delay_ms, attempts: 0 }
    }

    /// A reading with the default number of attempts and pause.
    pub fn with_defaults() -> (r: SensorRetry)
        ensures
            r.max_attempts_spec() == DEFAULT_MAX_ATTEMPTS as nat,
            r.retry_delay_spec() == DEFAULT_RETRY_DELAY_MS,
            r.attempts_spec() == 0,
    {
        SensorRetry::new(DEFAULT_MAX_ATTEMPTS, DEFAULT_RETRY_DELAY_MS)
    }

    /// Whether another read is to be made.
    pub fn should_read(&self) -> (r: bool)
        ensures
            r == (self.attempts_spec() < self.max_attempts_spec()),
    {
        self.attempts < self.max_attempts
    }

    /// Reads made so far.
    pub fn attempts(&self) -> (r: u32)
        ensures
            r as nat == self.attempts_spec(),
    {
        self.attempts
    }

    /// Records the outcome of one read and says what to do next. Once the
    /// attempts are used up, nothing more is counted and the answer is to
    /// give up.
    pub fn on_result(&mut self, succeeded: bool) -> (step: RetryStep)
        ensures
            step == retry_step(
                old(self).max_attempts_spec(),
                old(self).retry_delay_spec(),
                old(self).attempts_spec(),
                succeeded,
            ),
            final(self).max_attempts_spec() == old(self).max_attempts_spec(),
            final(self).retry_delay_spec() == old(self).retry_delay_spec(),
            final(self).attempts_spec() == if old(self).attempts_spec() < old(
                self,
            ).max_attempts_spec() {
                old(self).attempts_spec() + 1
            } else {
                old(self).attempts_spec()
            },
    {
        if self.attempts >= self.max_attempts {
            return RetryStep::GiveUp;
        }
        self.attempts = self.attempts + 1;
        if succeeded {
            RetryStep::Render
        } else if self.attempts < self.max_attempts {
            RetryStep::WaitThenRetry { delay_ms: self.retry_delay_ms }
        } else {
            RetryStep::GiveUp
        }
    }
}

} // verus!
