//! Implements policies for service behavior (retry count, delay, etc).
use std::time::Duration;
use vstd::prelude::*;

verus! {

/// Whether a service that failed is started again, and how often.
#[derive(Debug, Clone, Copy)]
pub enum Retry {
    No,
    Limit(u32),
    Forever,
}

/// What is done with a service that failed: whether it is started again,
/// and after what delay.
#[derive(Debug, Clone, Copy)]
pub struct Policy {
    pub retry: Retry,
    pub delay: Option<Duration>,
}

impl Default for Policy {
    fn default() -> (p: Self)
        ensures
            p == (Policy { retry: Retry::No, delay: None }),
    {
        Self::new()
    }
}

impl Policy {
    /// The policy that never starts a service again.
    pub fn new() -> (p: Self)
        ensures
            p == (Policy { retry: Retry::No, delay: None }),
    {
        Policy { retry: Retry::No, delay: None }
    }

    /// The same policy with the retry rule `retry`.
    pub fn with_retry(self, retry: Retry) -> (p: Self)
        ensures
            p == (Policy { retry, ..self }),
    {
        Policy { retry, ..self }
    }

    /// The same policy with the delay `delay` before a restart.
    pub fn with_delay(self, delay: Duration) -> (p: Self)
        ensures
            p == (Policy { delay: Some(delay), ..self }),
    {
        Policy { delay: Some(delay), ..self }
    }

    /// The same policy with no delay before a restart.
    pub fn without_delay(self) -> (p: Self)
        ensures
            p == (Policy { delay: None, ..self }),
    {
        Policy { delay: None, ..self }
    }

    /// Whether a service that has been started again `retry` times is
    /// started once more: never under `No`, always under `Forever`, and
    /// under `Limit` as long as the limit is not reached.
    pub open spec fn retries(self, retry: u32) -> bool {
        match self.retry {
            Retry::No => false,
            Retry::Limit(limit) => retry < limit,
            Retry::Forever => true,
        }
    }

    /// Whether a service that has been started again `retry` times is
    /// started once more.
    pub fn should_retry(&self, retry: u32) -> (b: bool)
        ensures
            b == self.retries(retry),
    {
        match self.retry {
            Retry::No => false,
            Retry::Limit(limit) => retry < limit,
            Retry::Forever => true,
        }
    }

    /// Under a limit, a service is started again exactly `limit` times:
    /// every count below the limit is retried, and none from it on.
    pub proof fn lemma_limit_exhausts(self, limit: u32)
        requires
            self.retry == Retry::Limit(limit),
        ensures
            forall|n: u32| n < limit ==> self.retries(n),
            forall|n: u32| n >= limit ==> !self.retries(n),
    {
    }
}

} // verus!
