use vstd::prelude::*;

verus! {

/// Retry policy of the batch emitter: how failed requests are handled.
#[derive(Debug, Copy, Clone, PartialEq, Eq, Structural)]
pub enum RetryPolicy {
    /// Retry sending events forever
    RetryForever,
    /// Retry sending events until the maximum number of retries is reached
    MaxRetries(u32),
    /// Do not retry sending events
    NoRetry,
}

impl RetryPolicy {
    /// Whether a batch that has already been retried `attempts` times may be
    /// retried once more.
    pub open spec fn permits(self, attempts: u32) -> bool {
        match self {
            RetryPolicy::RetryForever => true,
            RetryPolicy::MaxRetries(n) => attempts < n,
            RetryPolicy::NoRetry => false,
        }
    }

    /// Executable form of [`RetryPolicy::permits`].
    pub fn allows_retry(self, attempts: u32) -> (r: bool)
        ensures
            r == self.permits(attempts),
    {
        match self {
            RetryPolicy::RetryForever => true,
            RetryPolicy::MaxRetries(n) => attempts < n,
            RetryPolicy::NoRetry => false,
        }
    }
}

/// `MaxRetries(n)` permits a retry exactly while fewer than `n` retries
/// were made, so it denies one at `n`; `NoRetry` always denies;
/// `RetryForever` always permits.
pub proof fn lemma_retry_policy_decisions(n: u32, attempts: u32)
    ensures
        RetryPolicy::MaxRetries(n).permits(attempts) <==> attempts < n,
        !RetryPolicy::MaxRetries(n).permits(n),
        !RetryPolicy::NoRetry.permits(attempts),
        RetryPolicy::RetryForever.permits(attempts),
{
}

} // verus!
