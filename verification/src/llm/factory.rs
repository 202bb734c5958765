//! Factory for creating model instances with optional retry decoration.

use vstd::prelude::*;

use crate::llm::base::LLM;
use crate::llm::config::RetryConfig;
use crate::llm::decorators::BoxedRetryLLM;

verus! {

/// Creates model instances, wrapping them with the retry decorator when the
/// configuration asks for one. The returned model is type-erased, so the
/// choice is not visible in a contract here; the decision itself is
/// `retry_requested`, and the whole configuration — attempt budget, base
/// delay and strategy — is handed to the decorator. The decorator is
/// synchronous and retries immediately; a driver that can sleep should run
/// the attempt loop around `retry_step` instead, as the agent's composing
/// loop does with the configuration the agent builder stores.
pub struct LLMFactory;

/// Whether a retry configuration asks for decoration: it does exactly when
/// it is present with a positive attempt budget. A budget of 0 is equivalent
/// to no decoration.
pub open spec fn spec_retry_requested(retry_config: Option<RetryConfig>) -> bool {
    match retry_config {
        Some(config) => config.max_attempts > 0,
        None => false,
    }
}

/// Decides whether a configuration asks for retry decoration.
pub fn retry_requested(retry_config: &Option<RetryConfig>) -> (r: bool)
    ensures
        r == spec_retry_requested(*retry_config),
{
    match retry_config {
        Some(config) => config.max_attempts > 0,
        None => false,
    }
}

impl LLMFactory {
    /// Create a model with optional retry decoration: the base model is
    /// wrapped with `BoxedRetryLLM`, carrying the whole configuration,
    /// exactly when the configuration asks for it (`retry_requested`);
    /// otherwise it is handed back undecorated.
    pub fn create(base_llm: Box<dyn LLM>, retry_config: Option<RetryConfig>) -> Box<dyn LLM> {
        if retry_requested(&retry_config) {
            let config = match retry_config {
                Some(config) => config,
                None => RetryConfig::disabled(),
            };
            Box::new(BoxedRetryLLM::new(base_llm, config))
        } else {
            base_llm
        }
    }

    /// Create a model with the default retry configuration applied.
    pub fn create_with_default_retry(base_llm: Box<dyn LLM>) -> Box<dyn LLM> {
        Self::create(base_llm, Some(RetryConfig::default()))
    }

    /// Create a model without any retry functionality.
    pub fn create_without_retry(base_llm: Box<dyn LLM>) -> Box<dyn LLM> {
        Self::create(base_llm, None)
    }
}

} // verus!
