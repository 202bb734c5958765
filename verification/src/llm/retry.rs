//! An earlier retry wrapper kept for compatibility: same policy as the
//! decorators, with a fixed one-second backoff base. Like them it is
//! synchronous and cannot sleep: it re-issues the call immediately, and a
//! driver that can wait should run the attempt loop around `retry_step`
//! instead.

use vstd::prelude::*;

use crate::llm::base::{LLMError, LLM};
use crate::llm::config::{RetryConfig, RetryStrategy};
use crate::llm::decorators::{retry_step, RetryDecision, DEFAULT_BACKOFF_BASE_MS};

verus! {

/// A wrapper for a model that adds retry logic: rate-limited failures are
/// retried at most `retries` times; anything else propagates at once.
pub struct RetryableLLM<L> {
    llm: L,
    retries: usize,
}

impl<L> RetryableLLM<L> {
    /// The maximum number of retry attempts this wrapper issues.
    pub closed spec fn spec_retries(&self) -> usize {
        self.retries
    }

    /// Creates a new `RetryableLLM`.
    pub fn new(llm: L, retries: usize) -> (r: Self)
        ensures
            r.spec_retries() == retries,
    {
        Self { llm, retries }
    }
}

impl<L: LLM> LLM for RetryableLLM<L> {
    fn prompt(&mut self, text: String) -> (r: Result<String, LLMError>)
        ensures
            exists|outcomes: Seq<Result<String, LLMError>>|
                {
                    &&& outcomes.len() >= 1
                    &&& #[trigger] crate::llm::decorators::spec_retry_calls(
                        outcomes,
                        old(self).spec_retries() as nat,
                    ) == outcomes.len()
                    &&& r == crate::llm::decorators::spec_retry_result(
                        outcomes,
                        old(self).spec_retries() as nat,
                    )
                },
    {
        let retries = self.retries;
        let config = RetryConfig {
            max_attempts: retries,
            base_delay: DEFAULT_BACKOFF_BASE_MS,
            strategy: RetryStrategy::ExponentialBackoffWithJitter,
            only_retry_rate_limits: true,
        };
        let ghost mut outcomes: Seq<Result<String, LLMError>> = Seq::empty();
        let mut attempt: usize = 0;
        loop
            invariant
                attempt <= retries,
                retries == old(self).spec_retries(),
                config.max_attempts == retries,
                outcomes.len() == attempt,
                forall|i: int|
                    0 <= i < attempt ==> outcomes[i] is Err
                        && crate::llm::decorators::spec_retryable(#[trigger] outcomes[i]->Err_0),
            decreases retries - attempt,
        {
            let outcome = self.llm.prompt(text.clone());
            proof {
                outcomes = outcomes.push(outcome);
            }
            match retry_step(&config, attempt, outcome) {
                RetryDecision::Finish(res) => {
                    proof {
                        crate::llm::decorators::lemma_retry_run_ends(outcomes, retries as nat);
                    }
                    return res;
                },
                RetryDecision::RetryAfter(_delay) => {
                    attempt = attempt + 1;
                },
            }
        }
    }
}

} // verus!
