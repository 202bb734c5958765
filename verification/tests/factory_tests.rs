use forgeflow::llm::factory::retry_requested;
use forgeflow::llm::{LLMError, LLMFactory, RetryConfig, LLM};

struct MockLLM {
    name: String,
}

impl MockLLM {
    fn new(name: &str) -> Self {
        Self {
            name: name.to_string(),
        }
    }
}

impl LLM for MockLLM {
    fn prompt(&mut self, prompt: String) -> Result<String, LLMError> {
        Ok(format!("{}: {}", self.name, prompt))
    }
}

#[test]
fn test_create_without_retry_config() {
    let base_llm = Box::new(MockLLM::new("base"));
    let mut llm = LLMFactory::create(base_llm, None);

    let result = llm.prompt("test".to_string());
    assert!(result.is_ok());
    assert_eq!(result.unwrap(), "base: test");
}

#[test]
fn test_create_with_retry_config() {
    let base_llm = Box::new(MockLLM::new("base"));
    let config = RetryConfig::default();
    let mut llm = LLMFactory::create(base_llm, Some(config));

    let result = llm.prompt("test".to_string());
    assert!(result.is_ok());
    assert_eq!(result.unwrap(), "base: test");
}

#[test]
fn test_create_with_disabled_retry() {
    let base_llm = Box::new(MockLLM::new("base"));
    let config = RetryConfig::disabled();
    let mut llm = LLMFactory::create(base_llm, Some(config));

    let result = llm.prompt("test".to_string());
    assert!(result.is_ok());
    assert_eq!(result.unwrap(), "base: test");
}

#[test]
fn test_create_with_default_retry() {
    let base_llm = Box::new(MockLLM::new("base"));
    let mut llm = LLMFactory::create_with_default_retry(base_llm);

    let result = llm.prompt("test".to_string());
    assert!(result.is_ok());
    assert_eq!(result.unwrap(), "base: test");
}

#[test]
fn test_create_without_retry() {
    let base_llm = Box::new(MockLLM::new("base"));
    let mut llm = LLMFactory::create_without_retry(base_llm);

    let result = llm.prompt("test".to_string());
    assert!(result.is_ok());
    assert_eq!(result.unwrap(), "base: test");
}

#[test]
fn test_factory_decision_logic() {
    // Case 1: no configuration does not add retry.
    let should_retry_none = match None::<RetryConfig> {
        Some(config) if config.max_attempts > 0 => true,
        _ => false,
    };
    assert!(!should_retry_none);

    // Case 2: a configuration with attempts > 0 adds retry.
    let should_retry_enabled = match Some(RetryConfig::default()) {
        Some(config) if config.max_attempts > 0 => true,
        _ => false,
    };
    assert!(should_retry_enabled);

    // Case 3: a configuration with attempts = 0 does not add retry.
    let should_retry_disabled = match Some(RetryConfig::disabled()) {
        Some(config) if config.max_attempts > 0 => true,
        _ => false,
    };
    assert!(!should_retry_disabled);
}

#[test]
fn retry_requested_matches_configuration() {
    assert!(!retry_requested(&None));
    assert!(retry_requested(&Some(RetryConfig::default())));
    assert!(!retry_requested(&Some(RetryConfig::disabled())));
}
