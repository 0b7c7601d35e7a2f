//! The retry policy that stands between the provider and the raw resolver:
//! what to do after each attempt to fetch a manifest.

use vstd::prelude::*;

verus! {

/// How one attempt to fetch failed.
#[derive(Debug, Clone, PartialEq, Eq)]
pub enum FetchFailure {
    /// The attempt ran into the timeout.
    TimedOut,
    /// The resolver failed in a way that another attempt may mend.
    Transient(String),
    /// The resolver failed for good.
    Permanent(String),
}

/// Why the adapter gave up.
#[derive(Debug, Clone, PartialEq, Eq)]
pub enum ResolveFailure {
    ResolveTimeout,
    ResolveError(String),
}

/// What follows an attempt.
#[derive(Debug, Clone, PartialEq, Eq)]
pub enum NextStep {
    /// The bytes are there.
    Done(Vec<u8>),
    /// Wait for the backoff, in milliseconds, and fetch again.
    RetryAfter(u64),
    /// Give up.
    GiveUp(ResolveFailure),
}

/// The timeout of one attempt, the number of attempts and the pause between
/// two of them, all fixed when the adapter is made.
#[derive(Debug, Clone, Copy, PartialEq, Eq)]
pub struct RetryPolicy {
    pub timeout_ms: u64,
    pub max_attempts: u32,
    pub backoff_ms: u64,
}

/// What follows the attempt that made the count of attempts `made`: fetched
/// bytes end the resolution; a permanent failure ends it with that error; a
/// timeout or a transient failure is tried again while fewer than
/// `max_attempts` attempts were made, and ends it after that.
pub open spec fn next_step(policy: RetryPolicy, made: u32, outcome: Result<Vec<u8>, FetchFailure>) -> NextStep {
    match outcome {
        Ok(bytes) => NextStep::Done(bytes),
        Err(FetchFailure::Permanent(m)) => NextStep::GiveUp(ResolveFailure::ResolveError(m)),
        Err(FetchFailure::TimedOut) => if made < policy.max_attempts {
            NextStep::RetryAfter(policy.backoff_ms)
        } else {
            NextStep::GiveUp(ResolveFailure::ResolveTimeout)
        },
        Err(FetchFailure::Transient(m)) => if made < policy.max_attempts {
            NextStep::RetryAfter(policy.backoff_ms)
        } else {
            NextStep::GiveUp(ResolveFailure::ResolveError(m))
        },
    }
}

impl RetryPolicy {
    pub fn new(timeout_ms: u64, max_attempts: u32, backoff_ms: u64) -> (p: Self)
        ensures
            p == (RetryPolicy { timeout_ms, max_attempts, backoff_ms }),
    {
        RetryPolicy { timeout_ms, max_attempts, backoff_ms }
    }

    /// Decides what follows an attempt, `made` being the number of attempts
    /// made so far, this one included.
    pub fn after_attempt(&self, made: u32, outcome: Result<Vec<u8>, FetchFailure>) -> (step: NextStep)
        ensures
            step == next_step(*self, made, outcome),
    {
        match outcome {
            Ok(bytes) => NextStep::Done(bytes),
            Err(FetchFailure::Permanent(m)) => NextStep::GiveUp(ResolveFailure::ResolveError(m)),
            Err(FetchFailure::TimedOut) => {
                if made < self.max_attempts {
                    NextStep::RetryAfter(self.backoff_ms)
                } else {
                    NextStep::GiveUp(ResolveFailure::ResolveTimeout)
                }
            },
            Err(FetchFailure::Transient(m)) => {
                if made < self.max_attempts {
                    NextStep::RetryAfter(self.backoff_ms)
                } else {
                    NextStep::GiveUp(ResolveFailure::ResolveError(m))
                }
            },
        }
    }
}

/// The adapter never asks for more attempts than the policy allows.
pub proof fn retries_within_budget(policy: RetryPolicy, made: u32, outcome: Result<Vec<u8>, FetchFailure>)
    ensures
        next_step(policy, made, outcome) is RetryAfter ==> made < policy.max_attempts && outcome is Err,
        outcome is Ok ==> next_step(policy, made, outcome) is Done,
{
}

} // verus!
