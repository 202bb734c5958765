use forgeflow::agent::{AgentBuilder, AgentError, EventOutcome};
use forgeflow::llm::decorators::{retry_step, RetryDecision};
use forgeflow::llm::{LLMError, RetryConfig, RetryStrategy, LLM};
use forgeflow::triggers::event::TEvent;

struct MockLLM;

impl LLM for MockLLM {
    fn prompt(&mut self, _prompt: String) -> Result<String, LLMError> {
        Ok("test response".to_string())
    }
}

struct EchoLLM;

impl LLM for EchoLLM {
    fn prompt(&mut self, prompt: String) -> Result<String, LLMError> {
        Ok(prompt)
    }
}

#[test]
fn test_agent_builder_new_has_no_retry_config() {
    let builder = AgentBuilder::new();
    assert!(builder.retry_config.is_none());
}

#[test]
fn test_agent_builder_with_retry() {
    let builder = AgentBuilder::new().with_retry();
    assert!(builder.retry_config.is_some());
    let config = builder.retry_config.unwrap();
    assert_eq!(config.max_attempts, 3); // Default value
}

#[test]
fn test_agent_builder_with_custom_retry_config() {
    let custom_config = RetryConfig::new(5, 2000, RetryStrategy::Fixed);
    let builder = AgentBuilder::new().with_retry_config(custom_config.clone());
    assert!(builder.retry_config.is_some());
    let stored_config = builder.retry_config.unwrap();
    assert_eq!(stored_config.max_attempts, 5);
    assert_eq!(stored_config.base_delay, 2000);
}

#[test]
fn test_agent_builder_without_retry() {
    let builder = AgentBuilder::new().without_retry();
    assert!(builder.retry_config.is_some());
    let config = builder.retry_config.unwrap();
    assert_eq!(config.max_attempts, 0); // Disabled
}

#[test]
fn test_agent_builder_build_applies_default_retry() {
    let mock_llm = MockLLM;
    let builder = AgentBuilder::new()
        .with_model(Box::new(mock_llm))
        .with_prompt_template("test template".to_string());

    let result = builder.build();
    assert!(result.is_ok());
}

#[test]
fn agent_it_works() {
    assert_eq!(4, 4);
}

#[test]
fn build_fails_without_model() {
    let result = AgentBuilder::new()
        .with_prompt_template("{{name}}".to_string())
        .build();
    match result {
        Err(AgentError::BuildError(msg)) => assert_eq!(msg, "A model is required."),
        _ => panic!("Expected BuildError for a missing model"),
    }
}

#[test]
fn build_fails_without_template() {
    let result = AgentBuilder::new().with_model(Box::new(MockLLM)).build();
    match result {
        Err(AgentError::BuildError(msg)) => assert_eq!(msg, "A prompt template is required."),
        _ => panic!("Expected BuildError for a missing template"),
    }
}

#[test]
fn build_fails_on_template_syntax_error() {
    let result = AgentBuilder::new()
        .with_model(Box::new(MockLLM))
        .with_prompt_template("{{#if".to_string())
        .build();
    match result {
        Err(AgentError::TemplateError(_)) => {}
        _ => panic!("Expected TemplateError for a malformed template"),
    }
}

#[test]
fn agent_processes_one_event() {
    let mut agent = AgentBuilder::new()
        .with_model(Box::new(EchoLLM))
        .with_prompt_template("Event {{name}} carried {{payload.kind}}".to_string())
        .build()
        .unwrap();

    let event = TEvent {
        name: "Tick".to_string(),
        payload: Some("{\"kind\":\"timer\"}".to_string()),
    };

    match agent.process_single_event(&event) {
        EventOutcome::Prompted(Ok(response)) => {
            assert_eq!(response, "Event Tick carried timer");
        }
        other => panic!("Expected a prompted success, got {:?}", other),
    }
    assert_eq!(agent.inflight(), 0);
}

#[test]
fn agent_skips_event_with_bad_payload() {
    let mut agent = AgentBuilder::new()
        .with_model(Box::new(EchoLLM))
        .with_prompt_template("{{name}}".to_string())
        .build()
        .unwrap();

    let event = TEvent {
        name: "Tick".to_string(),
        payload: Some("this is not json".to_string()),
    };

    match agent.process_single_event(&event) {
        EventOutcome::RenderFailed(_) => {}
        other => panic!("Expected a render failure, got {:?}", other),
    }
    assert_eq!(agent.inflight(), 0);
}

#[test]
fn agent_reports_model_failure_and_goes_on() {
    struct FailingLLM;
    impl LLM for FailingLLM {
        fn prompt(&mut self, _prompt: String) -> Result<String, LLMError> {
            Err(LLMError::PromptError("{\"error\":{\"code\":500}}".to_string()))
        }
    }

    let mut agent = AgentBuilder::new()
        .with_model(Box::new(FailingLLM))
        .with_prompt_template("{{name}}".to_string())
        .without_retry()
        .build()
        .unwrap();

    let event = TEvent {
        name: "Tick".to_string(),
        payload: None,
    };

    match agent.process_single_event(&event) {
        EventOutcome::Prompted(Err(LLMError::PromptError(_))) => {}
        other => panic!("Expected a prompted failure, got {:?}", other),
    }
    assert_eq!(agent.inflight(), 0);
}

#[test]
fn build_stores_the_chosen_retry_policy() {
    // The configuration the builder stores is what the composing loop
    // drives `retry_step` with; custom settings flow through unchanged.
    let custom = RetryConfig::new(5, 2000, RetryStrategy::Fixed);
    let agent = AgentBuilder::new()
        .with_model(Box::new(MockLLM))
        .with_prompt_template("{{name}}".to_string())
        .with_retry_config(custom)
        .build()
        .unwrap();
    let stored = agent.retry_config();
    assert_eq!(stored.max_attempts, 5);
    assert_eq!(stored.base_delay, 2000);
    assert!(matches!(stored.strategy, RetryStrategy::Fixed));

    // without an explicit choice, the default policy is attached
    let defaulted = AgentBuilder::new()
        .with_model(Box::new(MockLLM))
        .with_prompt_template("{{name}}".to_string())
        .build()
        .unwrap();
    let stored = defaulted.retry_config();
    assert_eq!(stored.max_attempts, 3);
    assert_eq!(stored.base_delay, 1000);
    assert!(matches!(
        stored.strategy,
        RetryStrategy::ExponentialBackoffWithJitter
    ));
}

#[test]
fn agent_supports_attempt_by_attempt_driving() {
    struct FailTwiceLLM {
        calls: usize,
    }
    impl LLM for FailTwiceLLM {
        fn prompt(&mut self, _prompt: String) -> Result<String, LLMError> {
            self.calls += 1;
            if self.calls <= 2 {
                Err(LLMError::PromptError(
                    "{\"error\":{\"code\":429,\"message\":\"Rate limit exceeded\"}}".to_string(),
                ))
            } else {
                Ok("recovered".to_string())
            }
        }
    }

    let mut agent = AgentBuilder::new()
        .with_model(Box::new(FailTwiceLLM { calls: 0 }))
        .with_prompt_template("{{name}}".to_string())
        .build()
        .unwrap();

    // The composing loop's shape: render once, then attempt under the
    // stored policy (the waits are slept only where a driver can sleep).
    let event = TEvent {
        name: "Tick".to_string(),
        payload: None,
    };
    let prompt = agent.render_event(&event).unwrap();
    assert_eq!(prompt, "Tick");

    let config = agent.retry_config();
    let mut attempt: usize = 0;
    let result = loop {
        let outcome = agent.prompt_attempt(prompt.clone());
        match retry_step(&config, attempt, outcome) {
            RetryDecision::Finish(r) => break r,
            RetryDecision::RetryAfter(_delay_ms) => attempt += 1,
        }
    };
    assert_eq!(result.unwrap(), "recovered");
    assert_eq!(attempt, 2);
    assert_eq!(agent.inflight(), 0);
}
