//! The agent: the orchestrator that owns the model, the retry policy
//! attached to it, and the prompt template; validates its configuration
//! eagerly at build time; and processes events — rendering the template
//! against an event's JSON projection and submitting the rendered prompt to
//! the model. Waiting is outside its reach: the composing layer runs the
//! attempt loop, asking `retry_step` for each decision and sleeping the wait
//! it carries, with the retry configuration the builder stored here. The
//! channel plumbing, trigger supervision and shutdown race around it are run
//! by the composing layer as well.

use vstd::prelude::*;

use crate::llm::base::{LLMError, LLM};
use crate::llm::config::{RetryConfig, RetryStrategy};
use crate::triggers::event::{spec_event_json, TEvent};
use crate::utils::template::{rendered, template_ok, TEngine, TEngineError};

verus! {

/// An error of the agent.
#[derive(Debug)]
pub enum AgentError {
    /// An I/O error occurred.
    IoError,
    /// An error occurred in the model provider layer.
    RigError,
    /// An error occurred while handling the prompt template.
    TemplateError(TEngineError),
    /// The agent was configured without a required part.
    BuildError(String),
}

/// The capacity of the bounded event channel between the triggers and the
/// event loop: the backpressure valve. A trigger producing faster than the
/// agent consumes blocks on send rather than dropping events.
pub const EVENT_CHANNEL_CAPACITY: usize = 100;

/// The fixed grace period granted at shutdown when a model call is still in
/// flight, in milliseconds. Advisory only: the residual call is reported,
/// not cancelled or awaited.
pub const SHUTDOWN_GRACE_MS: u64 = 10000;

/// The name the prompt template is registered under on the agent's engine.
pub open spec fn spec_template_name() -> Seq<char> {
    "prompt"@
}

/// The default retry configuration the builder attaches when none is given:
/// 3 attempts, 1 second base delay, exponential backoff with jitter,
/// rate-limit-only.
pub open spec fn spec_default_retry_config() -> RetryConfig {
    RetryConfig {
        max_attempts: 3,
        base_delay: 1000,
        strategy: RetryStrategy::ExponentialBackoffWithJitter,
        only_retry_rate_limits: true,
    }
}

/// What processing one event produced.
#[derive(Debug)]
pub enum EventOutcome {
    /// The template rendered and the model was prompted once with the
    /// result.
    Prompted(Result<String, LLMError>),
    /// The template failed to render against this event; the event is
    /// skipped and the loop goes on.
    RenderFailed(TEngineError),
}

/// The orchestrator: owns the model, the retry configuration attached to
/// it, the prompt template, the template engine, and the in-flight request
/// counter.
pub struct Agent {
    model: Box<dyn LLM>,
    retry_config: RetryConfig,
    prompt_template: String,
    handlebars: TEngine,
    inflight: usize,
}

impl Agent {
    /// The prompt template this agent renders events against.
    pub closed spec fn spec_template(&self) -> Seq<char> {
        self.prompt_template@
    }

    /// The retry configuration attached to this agent's model.
    pub closed spec fn spec_retry_config(&self) -> RetryConfig {
        self.retry_config
    }

    /// The templates registered on this agent's engine: the builder
    /// registers exactly the prompt template, under its fixed name.
    pub closed spec fn spec_engine_registrations(&self) -> Seq<(Seq<char>, Seq<char>)> {
        self.handlebars.spec_registrations()
    }

    /// The number of model calls currently awaiting completion.
    pub closed spec fn spec_inflight(&self) -> usize {
        self.inflight
    }

    /// The retry configuration attached to this agent's model: the policy
    /// the composing loop drives `retry_step` with.
    pub fn retry_config(&self) -> (r: RetryConfig)
        ensures
            r == self.spec_retry_config(),
    {
        self.retry_config
    }

    /// The number of model calls currently awaiting completion. It is 0
    /// whenever no prompt is underway: the agent is strictly single-flight.
    pub fn inflight(&self) -> (r: usize)
        ensures
            r == self.spec_inflight(),
    {
        self.inflight
    }

    /// Renders the prompt template against the event's JSON projection.
    pub fn render_event(&self, event: &TEvent) -> (r: Result<String, TEngineError>)
        ensures
            match r {
                Result::Ok(text) => rendered(
                    self.spec_engine_registrations(),
                    self.spec_template(),
                    spec_event_json(event.name@, event.spec_payload()),
                ) == Some(text@),
                Result::Err(_) => rendered(
                    self.spec_engine_registrations(),
                    self.spec_template(),
                    spec_event_json(event.name@, event.spec_payload()),
                ) is None,
            },
    {
        let json_context = event.to_json();
        self.handlebars.render_template(self.prompt_template.as_str(), json_context.as_str())
    }

    /// Submits one prompt to the model, holding the in-flight counter raised
    /// for the duration of the call. This is a single attempt: the composing
    /// loop repeats it under the retry policy, performing the wait each
    /// `retry_step` decision asks for between attempts.
    pub fn prompt_attempt(&mut self, text: String) -> (r: Result<String, LLMError>)
        requires
            old(self).spec_inflight() < usize::MAX,
        ensures
            final(self).spec_inflight() == old(self).spec_inflight(),
            final(self).spec_template() == old(self).spec_template(),
            final(self).spec_engine_registrations() == old(self).spec_engine_registrations(),
            final(self).spec_retry_config() == old(self).spec_retry_config(),
    {
        self.inflight = self.inflight + 1;
        let response = self.model.prompt(text);
        self.inflight = self.inflight - 1;
        response
    }

    /// Processes a single event: renders the template against the event's
    /// JSON projection; when rendering succeeds, submits the rendered prompt
    /// to the model once. Neither a render failure nor a model failure is
    /// fatal: the outcome says which occurred, and the caller's loop goes on
    /// either way — retrying a transient failure, with the waits the policy
    /// asks for, is the composing loop's part.
    pub fn process_single_event(&mut self, event: &TEvent) -> (r: EventOutcome)
        requires
            old(self).spec_inflight() < usize::MAX,
        ensures
            final(self).spec_template() == old(self).spec_template(),
            final(self).spec_inflight() == old(self).spec_inflight(),
            final(self).spec_engine_registrations() == old(self).spec_engine_registrations(),
            final(self).spec_retry_config() == old(self).spec_retry_config(),
            match r {
                EventOutcome::Prompted(_) => rendered(
                    old(self).spec_engine_registrations(),
                    old(self).spec_template(),
                    spec_event_json(event.name@, event.spec_payload()),
                ) is Some,
                EventOutcome::RenderFailed(_) => rendered(
                    old(self).spec_engine_registrations(),
                    old(self).spec_template(),
                    spec_event_json(event.name@, event.spec_payload()),
                ) is None,
            },
    {
        match self.render_event(event) {
            Ok(prompt) => EventOutcome::Prompted(self.prompt_attempt(prompt)),
            Err(e) => EventOutcome::RenderFailed(e),
        }
    }
}

/// A builder for [`Agent`]: a model and a prompt template are required; a
/// retry policy is optional and defaults to the rate-limit policy.
pub struct AgentBuilder {
    /// The model the agent drives.
    pub model: Option<Box<dyn LLM>>,
    /// The prompt template the agent renders events against.
    pub prompt_template: Option<String>,
    /// The retry policy to attach, when one was chosen explicitly.
    pub retry_config: Option<RetryConfig>,
}

impl AgentBuilder {
    /// Creates a new builder with nothing configured.
    pub fn new() -> (r: Self)
        ensures
            r.model is None,
            r.prompt_template is None,
            r.retry_config is None,
    {
        Self { model: None, prompt_template: None, retry_config: None }
    }

    /// Sets the model for the agent.
    pub fn with_model(self, model: Box<dyn LLM>) -> (r: Self)
        ensures
            r.model is Some,
            r.prompt_template == self.prompt_template,
            r.retry_config == self.retry_config,
    {
        let mut b = self;
        b.model = Some(model);
        b
    }

    /// Sets the prompt template for the agent.
    pub fn with_prompt_template(self, template: String) -> (r: Self)
        ensures
            r.prompt_template == Some(template),
            r.model is Some <==> self.model is Some,
            r.retry_config == self.retry_config,
    {
        let mut b = self;
        b.prompt_template = Some(template);
        b
    }

    /// Enables retry with the default configuration.
    pub fn with_retry(self) -> (r: Self)
        ensures
            r.retry_config == Some(spec_default_retry_config()),
            r.model is Some <==> self.model is Some,
            r.prompt_template == self.prompt_template,
    {
        let mut b = self;
        b.retry_config = Some(RetryConfig::default());
        b
    }

    /// Configures retry behavior with custom settings.
    pub fn with_retry_config(self, config: RetryConfig) -> (r: Self)
        ensures
            r.retry_config == Some(config),
            r.model is Some <==> self.model is Some,
            r.prompt_template == self.prompt_template,
    {
        let mut b = self;
        b.retry_config = Some(config);
        b
    }

    /// Explicitly disables retry; equivalent to attaching the disabled
    /// configuration.
    pub fn without_retry(self) -> (r: Self)
        ensures
            r.retry_config == Some(
                RetryConfig {
                    max_attempts: 0,
                    base_delay: 0,
                    strategy: RetryStrategy::Fixed,
                    only_retry_rate_limits: true,
                },
            ),
            r.model is Some <==> self.model is Some,
            r.prompt_template == self.prompt_template,
    {
        let mut b = self;
        b.retry_config = Some(RetryConfig::disabled());
        b
    }

    /// Builds the agent. Construction fails unless both a model and a prompt
    /// template were supplied; the template is parsed eagerly — it is
    /// registered on the agent's engine — so a syntax error surfaces here
    /// rather than at first use. The chosen retry configuration (or the
    /// default one, when none was chosen) is stored on the agent for the
    /// composing loop to drive; the model itself is kept undecorated, since
    /// a decorator inside the agent could not perform the policy's waits.
    pub fn build(self) -> (r: Result<Agent, AgentError>)
        ensures
            r is Ok <==> (self.model is Some && self.prompt_template is Some && template_ok(
                self.prompt_template->0@,
            )),
            match r {
                Result::Ok(agent) => {
                    &&& agent.spec_template() == self.prompt_template->0@
                    &&& agent.spec_engine_registrations() =~= seq![
                        (spec_template_name(), self.prompt_template->0@),
                    ]
                    &&& agent.spec_retry_config() == (match self.retry_config {
                        Some(c) => c,
                        None => spec_default_retry_config(),
                    })
                    &&& agent.spec_inflight() == 0
                },
                Result::Err(e) => {
                    &&& self.model is None ==> e is BuildError && e->BuildError_0@
                        == "A model is required."@
                    &&& (self.model is Some && self.prompt_template is None) ==> e is BuildError
                        && e->BuildError_0@ == "A prompt template is required."@
                    &&& (self.model is Some && self.prompt_template is Some) ==> e
                        is TemplateError
                },
            },
    {
        let model = match self.model {
            Some(m) => m,
            None => {
                return Err(AgentError::BuildError("A model is required.".to_owned()));
            },
        };

        let template = match self.prompt_template {
            Some(t) => t,
            None => {
                return Err(AgentError::BuildError("A prompt template is required.".to_owned()));
            },
        };

        let mut handlebars = TEngine::new();
        match handlebars.register_template_string("prompt", template.as_str()) {
            Ok(()) => {},
            Err(e) => {
                return Err(AgentError::TemplateError(e));
            },
        }

        // The default is to retry unless configured otherwise.
        let retry_config = match self.retry_config {
            Some(c) => c,
            None => RetryConfig::default(),
        };

        Ok(
            Agent {
                model,
                retry_config,
                prompt_template: template,
                handlebars,
                inflight: 0,
            },
        )
    }
}

} // verus!
