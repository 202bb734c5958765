//! The core model contract: the `LLM` trait every model capability
//! implements, and the error type model calls report.

use vstd::prelude::*;

verus! {

/// An error reported by a model call.
///
/// The wrapped string is the provider's error body; for structured provider
/// failures it is a JSON document of the shape
/// `{"error": {"code": ..., "message": ..., "details": [...]}}`.
#[derive(Debug, Clone)]
pub enum LLMError {
    /// An error occurred while prompting the model.
    PromptError(String),
}

impl LLMError {
    /// The provider error body carried by this error.
    pub open spec fn spec_body(&self) -> Seq<char> {
        match self {
            LLMError::PromptError(s) => s@,
        }
    }

    /// A printable description of this error.
    pub fn message(&self) -> (r: String)
        ensures
            r@ == "Failed to prompt the model: "@ + self.spec_body(),
    {
        match self {
            LLMError::PromptError(s) => "Failed to prompt the model: ".to_owned().concat(s.as_str()),
        }
    }
}

/// The contract for any model processor the agent can use: prompt text in,
/// response text or a structured failure out. Implementations perform the
/// provider call; nothing is assumed here about what they return.
pub trait LLM {
    /// Sends a text prompt to the model and returns its response, or an
    /// error whose body may carry a structured provider failure.
    fn prompt(&mut self, text: String) -> (r: Result<String, LLMError>);
}

} // verus!
