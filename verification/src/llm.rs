//! The model capability: the `LLM` contract, its error type, retry
//! configuration and policy, decorators that wrap a model with retries, and
//! a factory that applies them.

pub mod base;
pub mod config;
pub mod decorators;
pub mod factory;
pub mod retry;

pub use base::{LLMError, LLM};
pub use config::{RetryConfig, RetryStrategy};
pub use decorators::{BoxedRetryLLM, ManualRetryLLM, RetryableLLM};
pub use factory::LLMFactory;
