//! The retry policy: a fallible operation is executed at least once; on
//! failure it is retried after a wait, up to `max_attempts` tries if bounded,
//! or indefinitely if unbounded. The host performs the operation; the policy
//! decides, after each failed attempt, whether another try is allowed.

use vstd::prelude::*;

verus! {

/// Policy for one retried operation: an optional attempt budget and the wait
/// between attempts. `max_attempts: None` means retry forever — appropriate
/// for transient conditions expected to eventually clear. Each invocation of
/// a retried operation gets an independent budget.
#[derive(Debug, Copy, Clone, PartialEq, Eq)]
pub struct RetryPolicy {
    pub max_attempts: Option<usize>,
    pub wait_millis: u64,
}

/// Whether the policy allows another attempt after `attempts_made` attempts
/// have already been executed and failed.
pub open spec fn spec_allows_retry(max_attempts: Option<nat>, attempts_made: nat) -> bool {
    match max_attempts {
        None => true,
        Some(max) => attempts_made < max,
    }
}

/// The policy's attempt budget as a mathematical value.
pub open spec fn spec_budget(max_attempts: Option<usize>) -> Option<nat> {
    match max_attempts {
        None => None,
        Some(max) => Some(max as nat),
    }
}

impl RetryPolicy {
    /// A policy with the given budget and wait.
    pub fn new(max_attempts: Option<usize>, wait_millis: u64) -> (p: RetryPolicy)
        ensures
            p.max_attempts == max_attempts,
            p.wait_millis == wait_millis,
    {
        RetryPolicy { max_attempts, wait_millis }
    }

    /// After `attempts_made` failed attempts, may the operation be tried again?
    pub fn allows_retry(&self, attempts_made: usize) -> (r: bool)
        ensures
            r == spec_allows_retry(spec_budget(self.max_attempts), attempts_made as nat),
    {
        match self.max_attempts {
            None => true,
            Some(max) => attempts_made < max,
        }
    }
}

/// An unbounded policy never exhausts its budget: however many attempts have
/// failed, another one is allowed.
pub proof fn lemma_unbounded_policy_always_retries(attempts_made: nat)
    ensures
        spec_allows_retry(None, attempts_made),
{
}

} // verus!
