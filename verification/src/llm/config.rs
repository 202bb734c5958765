//! Configuration for model retry behavior: how many times a failed call is
//! re-issued, how long to back off, and which failures qualify.

use vstd::prelude::*;

verus! {

/// Retry strategy for handling failed model requests.
#[derive(Debug, Clone, Copy, PartialEq, Eq, Structural)]
pub enum RetryStrategy {
    /// Fixed delay between retries.
    Fixed,
    /// Exponential backoff without jitter.
    ExponentialBackoff,
    /// Exponential backoff with jitter to avoid thundering herd.
    ExponentialBackoffWithJitter,
}

/// Configuration for model retry behavior, specifically around rate-limit
/// failures from model providers. Immutable once attached to a decorator.
#[derive(Debug, Clone, Copy)]
pub struct RetryConfig {
    /// Maximum number of retry attempts (0 means no retries).
    pub max_attempts: usize,
    /// Base delay for the retry backoff strategy, in milliseconds.
    pub base_delay: u64,
    /// The retry strategy to use.
    pub strategy: RetryStrategy,
    /// Whether to only retry on rate-limit (429) errors.
    pub only_retry_rate_limits: bool,
}

impl RetryConfig {
    /// Create a new retry configuration with custom parameters.
    pub fn new(max_attempts: usize, base_delay: u64, strategy: RetryStrategy) -> (r: Self)
        ensures
            r.max_attempts == max_attempts,
            r.base_delay == base_delay,
            r.strategy == strategy,
            r.only_retry_rate_limits,
    {
        Self { max_attempts, base_delay, strategy, only_retry_rate_limits: true }
    }

    /// Create a configuration that retries all errors (not just rate limits).
    pub fn retry_all_errors(self) -> (r: Self)
        ensures
            r.max_attempts == self.max_attempts,
            r.base_delay == self.base_delay,
            r.strategy == self.strategy,
            !r.only_retry_rate_limits,
    {
        let mut c = self;
        c.only_retry_rate_limits = false;
        c
    }

    /// Create a configuration for aggressive retry (more attempts, shorter delays).
    pub fn aggressive() -> (r: Self)
        ensures
            r.max_attempts == 5,
            r.base_delay == 500,
            r.strategy == RetryStrategy::ExponentialBackoffWithJitter,
            r.only_retry_rate_limits,
    {
        Self {
            max_attempts: 5,
            base_delay: 500,
            strategy: RetryStrategy::ExponentialBackoffWithJitter,
            only_retry_rate_limits: true,
        }
    }

    /// Create a configuration for conservative retry (fewer attempts, longer delays).
    pub fn conservative() -> (r: Self)
        ensures
            r.max_attempts == 2,
            r.base_delay == 2000,
            r.strategy == RetryStrategy::ExponentialBackoff,
            r.only_retry_rate_limits,
    {
        Self {
            max_attempts: 2,
            base_delay: 2000,
            strategy: RetryStrategy::ExponentialBackoff,
            only_retry_rate_limits: true,
        }
    }

    /// Create a configuration with no retry (for explicit opt-out).
    pub fn disabled() -> (r: Self)
        ensures
            r.max_attempts == 0,
            r.base_delay == 0,
            r.strategy == RetryStrategy::Fixed,
            r.only_retry_rate_limits,
    {
        Self {
            max_attempts: 0,
            base_delay: 0,
            strategy: RetryStrategy::Fixed,
            only_retry_rate_limits: true,
        }
    }
}

impl Default for RetryConfig {
    /// Default retry configuration tuned for provider rate limiting: 3 retry
    /// attempts, 1 second base delay, exponential backoff with jitter, and
    /// retry restricted to rate-limit errors.
    fn default() -> (r: Self)
        ensures
            r.max_attempts == 3,
            r.base_delay == 1000,
            r.strategy == RetryStrategy::ExponentialBackoffWithJitter,
            r.only_retry_rate_limits,
    {
        Self {
            max_attempts: 3,
            base_delay: 1000,
            strategy: RetryStrategy::ExponentialBackoffWithJitter,
            only_retry_rate_limits: true,
        }
    }
}

} // verus!
