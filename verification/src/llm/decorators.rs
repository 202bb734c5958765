//! Retry decorators for model calls.
//!
//! A failed model call is re-issued only when the provider error body is a
//! structured rate-limit failure (`{"error": {"code": 429, ...}}`); any other
//! shape, including unparsable bodies, propagates immediately. The wait
//! before a re-issue is the provider-supplied retry-delay hint when one is
//! present, and otherwise the configured strategy's backoff.
//!
//! The decision for one attempt is `retry_step`, with an exact contract: it
//! fixes both whether a retry happens and how long the wait before it must
//! be. The decorators in this module are synchronous and therefore cannot
//! sleep: they drive their wrapped model with `retry_step` and re-issue the
//! call immediately, discarding the wait. A driver that can sleep — such as
//! the asynchronous composition the agent is run under — must run the
//! attempt loop itself around `retry_step` and perform each `RetryAfter`
//! wait; the agent's builder hands the retry configuration through for
//! exactly that purpose.
//!
//! `spec_retry_calls` and `spec_retry_result` model a whole run over the
//! sequence of outcomes the wrapped model produces, and the lemmas state the
//! laws of that model: a run of rate-limit failures is retried to
//! exhaustion, any other failure propagates after exactly one call, and a
//! success stops the run. Each decorator's `prompt` is proved consistent
//! with that model over a ghost log of the outcomes it observed; note that
//! an existential clause of this shape constrains the caller little — the
//! per-attempt behavior is pinned by `retry_step`, and the laws by the
//! lemmas.

use vstd::arithmetic::power2::pow2;
use vstd::prelude::*;

use crate::llm::base::{LLMError, LLM};
use crate::llm::config::{RetryConfig, RetryStrategy};

verus! {

/// The numeric `"error"."code"` field of a structured provider error body,
/// when the body parses as a JSON document that carries one.
pub uninterp spec fn json_error_code(body: Seq<char>) -> Option<i64>;

/// The provider-supplied retry delay in milliseconds: the parsed
/// `"retryDelay"` duration of the first well-formed retry-information entry
/// under `"error"."details"`, when the body carries one.
pub uninterp spec fn json_retry_delay_ms(body: Seq<char>) -> Option<u64>;

/// Relies on `serde_json::from_str`, `serde_json::Value::as_i64` and the
/// `Value` index operator: reads the numeric `"error"."code"` field of a JSON
/// error body. The result depends on the body text alone.
#[verifier::external_body]
fn extract_error_code(body: &str) -> (r: Option<i64>)
    ensures
        r == json_error_code(body@),
{
    let v: serde_json::Value = match serde_json::from_str(body) {
        Ok(v) => v,
        Err(_) => return None,
    };
    v["error"]["code"].as_i64()
}

/// Relies on `serde_json::from_str`, the `serde_json::Value` accessors
/// `as_array` / `as_str` and `humantime::parse_duration`: finds the first
/// retry-information entry under `"error"."details"` whose `"retryDelay"`
/// parses as a duration, and hands its length back in milliseconds. The
/// result depends on the body text alone.
#[verifier::external_body]
fn extract_retry_delay_ms(body: &str) -> (r: Option<u64>)
    ensures
        r == json_retry_delay_ms(body@),
{
    let v: serde_json::Value = match serde_json::from_str(body) {
        Ok(v) => v,
        Err(_) => return None,
    };
    let details = v["error"]["details"].as_array()?;
    for detail in details {
        if detail["@type"].as_str() == Some("type.googleapis.com/google.rpc.RetryInfo") {
            if let Some(delay) = detail["retryDelay"].as_str() {
                if let Ok(duration) = humantime::parse_duration(delay) {
                    return Some(duration.as_millis() as u64);
                }
            }
        }
    }
    None
}

/// Whether a model error is transient: true exactly when its body carries a
/// structured rate-limit code.
pub open spec fn spec_retryable(e: LLMError) -> bool {
    json_error_code(e.spec_body()) == Some(429i64)
}

/// Determines if an error should be retried: only a structured provider
/// error body with numeric code 429 (rate limit) qualifies; everything else,
/// including unparsable bodies, does not.
pub fn should_retry(error: &LLMError) -> (r: bool)
    ensures
        r == spec_retryable(*error),
{
    match error {
        LLMError::PromptError(s) => {
            match extract_error_code(s.as_str()) {
                Some(code) => code == 429,
                None => false,
            }
        },
    }
}

/// An integer capped at the largest value a `u64` holds.
pub open spec fn spec_capped_u64(v: int) -> int {
    if v <= u64::MAX as int {
        v
    } else {
        u64::MAX as int
    }
}

/// The jitter added to the backoff of the given attempt: a small bounded
/// term derived from the attempt index.
pub open spec fn spec_jitter_ms(attempt: nat) -> int {
    (attempt as int * 50) % 200
}

/// The jitter for the given attempt.
pub fn jitter_ms(attempt: usize) -> (r: u64)
    ensures
        r as int == spec_jitter_ms(attempt as nat),
{
    let r: u64 = (attempt % 4) as u64 * 50;
    proof {
        assert(((attempt as int % 4) * 50) == (attempt as int * 50) % 200) by (nonlinear_arith);
    }
    r
}

/// The exponential backoff for the given attempt, capped at what a `u64`
/// holds: the base delay doubled once per attempt already made.
pub fn backoff_ms(base_delay: u64, attempt: usize) -> (r: u64)
    ensures
        r as int == spec_capped_u64(base_delay * pow2(attempt as nat)),
{
    let mut r: u64 = base_delay;
    let mut i: usize = 0;
    proof {
        vstd::arithmetic::power2::lemma2_to64();
    }
    while i < attempt
        invariant
            i <= attempt,
            r as int == spec_capped_u64(base_delay * pow2(i as nat)),
        decreases attempt - i,
    {
        proof {
            vstd::arithmetic::power2::lemma_pow2_unfold((i + 1) as nat);
            assert(base_delay * (2 * pow2(i as nat)) == 2 * (base_delay * pow2(i as nat)))
                by (nonlinear_arith);
        }
        r = match r.checked_mul(2) {
            Some(v) => v,
            None => u64::MAX,
        };
        i = i + 1;
    }
    r
}

/// The wait a strategy asks for before re-issuing the call after the given
/// attempt, absent a provider hint: a fixed base delay, the exponential
/// backoff, or the exponential backoff plus jitter, each capped at what a
/// `u64` holds.
pub open spec fn spec_strategy_backoff_ms(
    strategy: RetryStrategy,
    base_delay: u64,
    attempt: nat,
) -> int {
    match strategy {
        RetryStrategy::Fixed => base_delay as int,
        RetryStrategy::ExponentialBackoff => spec_capped_u64(base_delay * pow2(attempt)),
        RetryStrategy::ExponentialBackoffWithJitter => spec_capped_u64(
            base_delay * pow2(attempt) + spec_jitter_ms(attempt),
        ),
    }
}

/// The wait before re-issuing a failed call: the provider's retry-delay hint
/// when the error body carries one, and otherwise the configured strategy's
/// backoff for the attempt just made.
pub open spec fn spec_retry_delay_ms(
    body: Seq<char>,
    strategy: RetryStrategy,
    base_delay: u64,
    attempt: nat,
) -> int {
    match json_retry_delay_ms(body) {
        Some(d) => d as int,
        None => spec_strategy_backoff_ms(strategy, base_delay, attempt),
    }
}

/// Computes the wait before re-issuing a failed call.
pub fn retry_delay_ms(
    error: &LLMError,
    strategy: RetryStrategy,
    base_delay: u64,
    attempt: usize,
) -> (r: u64)
    ensures
        r as int == spec_retry_delay_ms(error.spec_body(), strategy, base_delay, attempt as nat),
{
    let body: &String = match error {
        LLMError::PromptError(s) => s,
    };
    match extract_retry_delay_ms(body.as_str()) {
        Some(d) => d,
        None => {
            match strategy {
                RetryStrategy::Fixed => base_delay,
                RetryStrategy::ExponentialBackoff => backoff_ms(base_delay, attempt),
                RetryStrategy::ExponentialBackoffWithJitter => {
                    let backoff = backoff_ms(base_delay, attempt);
                    let jitter = jitter_ms(attempt);
                    backoff.saturating_add(jitter)
                },
            }
        },
    }
}

/// What the retry policy does after one attempt's outcome.
#[derive(Debug)]
pub enum RetryDecision {
    /// The run is over: hand this result back.
    Finish(Result<String, LLMError>),
    /// Wait this many milliseconds, then issue the next attempt.
    RetryAfter(u64),
}

/// The decision the retry policy takes for the outcome of attempt number
/// `attempt` (counted from 0) under the given configuration.
pub open spec fn spec_retry_decision(
    config: RetryConfig,
    attempt: nat,
    outcome: Result<String, LLMError>,
) -> RetryDecision {
    match outcome {
        Result::Ok(s) => RetryDecision::Finish(Result::Ok(s)),
        Result::Err(e) => if attempt < config.max_attempts && spec_retryable(e) {
            RetryDecision::RetryAfter(
                spec_retry_delay_ms(e.spec_body(), config.strategy, config.base_delay, attempt)
                    as u64,
            )
        } else {
            RetryDecision::Finish(Result::Err(e))
        },
    }
}

/// Decides what follows the outcome of one attempt: a success is handed back
/// at once; a rate-limited failure with attempts remaining asks for a wait
/// and another attempt; any other failure, or an exhausted attempt counter,
/// hands the error back unchanged. A driver of this policy must perform the
/// wait each `RetryAfter` decision carries before the next attempt.
pub fn retry_step(
    config: &RetryConfig,
    attempt: usize,
    outcome: Result<String, LLMError>,
) -> (r: RetryDecision)
    ensures
        r == spec_retry_decision(*config, attempt as nat, outcome),
{
    match outcome {
        Result::Ok(s) => RetryDecision::Finish(Result::Ok(s)),
        Result::Err(e) => {
            if attempt < config.max_attempts && should_retry(&e) {
                let delay = retry_delay_ms(&e, config.strategy, config.base_delay, attempt);
                RetryDecision::RetryAfter(delay)
            } else {
                RetryDecision::Finish(Result::Err(e))
            }
        },
    }
}

/// How many calls a retry-wrapped model issues when the wrapped model would
/// produce the given outcomes in order, with `budget` retries left. Each
/// failed retryable outcome with budget remaining consumes one retry.
pub open spec fn spec_retry_calls(outcomes: Seq<Result<String, LLMError>>, budget: nat) -> nat
    decreases outcomes.len(),
{
    if outcomes.len() == 0 {
        0
    } else {
        match outcomes[0] {
            Result::Ok(_) => 1,
            Result::Err(e) => if budget > 0 && spec_retryable(e) && outcomes.len() > 1 {
                1 + spec_retry_calls(outcomes.drop_first(), (budget - 1) as nat)
            } else {
                1
            },
        }
    }
}

/// The result a retry-wrapped model hands back when the wrapped model would
/// produce the given outcomes in order, with `budget` retries left.
pub open spec fn spec_retry_result(
    outcomes: Seq<Result<String, LLMError>>,
    budget: nat,
) -> Result<String, LLMError>
    recommends
        outcomes.len() > 0,
    decreases outcomes.len(),
{
    if outcomes.len() <= 1 {
        outcomes[0]
    } else {
        match outcomes[0] {
            Result::Ok(_) => outcomes[0],
            Result::Err(e) => if budget > 0 && spec_retryable(e) {
                spec_retry_result(outcomes.drop_first(), (budget - 1) as nat)
            } else {
                outcomes[0]
            },
        }
    }
}

/// When every outcome is a rate-limited failure and exactly `max_attempts`
/// retries are allowed, the run issues `1 + max_attempts` calls and hands
/// back the last failure.
pub proof fn lemma_rate_limit_run_exhausts_attempts(
    outcomes: Seq<Result<String, LLMError>>,
    max_attempts: nat,
)
    requires
        outcomes.len() == max_attempts + 1,
        forall|i: int|
            0 <= i < outcomes.len() ==> outcomes[i] is Err && spec_retryable(
                #[trigger] outcomes[i]->Err_0,
            ),
    ensures
        spec_retry_calls(outcomes, max_attempts) == max_attempts + 1,
        spec_retry_result(outcomes, max_attempts) == outcomes.last(),
    decreases max_attempts,
{
    if max_attempts > 0 {
        lemma_rate_limit_run_exhausts_attempts(outcomes.drop_first(), (max_attempts - 1) as nat);
    }
}

/// A failure that is not rate-limited (code other than 429, or an unparsable
/// body) ends the run after exactly one call, handing that failure back.
pub proof fn lemma_non_retryable_fails_fast(
    outcomes: Seq<Result<String, LLMError>>,
    budget: nat,
)
    requires
        outcomes.len() > 0,
        outcomes[0] is Err,
        !spec_retryable(outcomes[0]->Err_0),
    ensures
        spec_retry_calls(outcomes, budget) == 1,
        spec_retry_result(outcomes, budget) == outcomes[0],
{
}

/// When the first `k` outcomes are rate-limited failures and attempt `k`
/// succeeds within the allowed retries, the run issues exactly `k + 1` calls
/// and hands back that success.
pub proof fn lemma_success_stops_retrying(
    outcomes: Seq<Result<String, LLMError>>,
    k: nat,
    max_attempts: nat,
)
    requires
        k <= max_attempts,
        outcomes.len() == k + 1,
        forall|i: int|
            0 <= i < k ==> outcomes[i] is Err && spec_retryable(#[trigger] outcomes[i]->Err_0),
        outcomes.last() is Ok,
    ensures
        spec_retry_calls(outcomes, max_attempts) == k + 1,
        spec_retry_result(outcomes, max_attempts) == outcomes.last(),
    decreases k,
{
    if k > 0 {
        lemma_success_stops_retrying(outcomes.drop_first(), (k - 1) as nat, (max_attempts - 1) as nat);
    }
}

/// A whole run is characterized by the sequence of outcomes the wrapped
/// model produced: every outcome but the last was a rate-limited failure
/// within budget, and the last one ended the run — a success, a failure that
/// is not rate-limited, or the exhaustion of the budget. Such a run issues
/// exactly one call per outcome and hands the last outcome back.
pub proof fn lemma_retry_run_ends(outcomes: Seq<Result<String, LLMError>>, budget: nat)
    requires
        outcomes.len() >= 1,
        forall|i: int|
            0 <= i < outcomes.len() - 1 ==> outcomes[i] is Err && spec_retryable(
                #[trigger] outcomes[i]->Err_0,
            ),
        outcomes.len() - 1 <= budget,
        outcomes.last() is Ok || !spec_retryable(outcomes.last()->Err_0) || outcomes.len() == budget
            + 1,
    ensures
        spec_retry_calls(outcomes, budget) == outcomes.len(),
        spec_retry_result(outcomes, budget) == outcomes.last(),
    decreases outcomes.len(),
{
    if outcomes.len() > 1 {
        lemma_retry_run_ends(outcomes.drop_first(), (budget - 1) as nat);
    }
}

/// The base delay, in milliseconds, the exponential-backoff decorators use.
pub const DEFAULT_BACKOFF_BASE_MS: u64 = 1000;

/// A wrapper for a model that adds retry logic with exponential backoff and
/// jitter over a one-second base.
///
/// Retries are issued only for rate-limited failures, at most `retries`
/// times; the decision for each attempt is `retry_step`. The decorator is
/// synchronous and cannot sleep, so it re-issues the call immediately and
/// the wait `retry_step` asks for goes unperformed here; where the backoff
/// matters, run the attempt loop from a caller that can sleep, as the
/// agent's composing loop does.
pub struct RetryableLLM<L> {
    llm: L,
    retries: usize,
}

impl<L> RetryableLLM<L> {
    /// The maximum number of retry attempts this decorator issues.
    pub closed spec fn spec_retries(&self) -> usize {
        self.retries
    }

    /// Creates a new `RetryableLLM` with the specified number of retries
    /// (0 means no retries).
    pub fn new(llm: L, retries: usize) -> (r: Self)
        ensures
            r.spec_retries() == retries,
    {
        Self { llm, retries }
    }
}

impl<L: LLM> LLM for RetryableLLM<L> {
    fn prompt(&mut self, text: String) -> (r: Result<String, LLMError>)
        ensures
            exists|outcomes: Seq<Result<String, LLMError>>|
                {
                    &&& outcomes.len() >= 1
                    &&& #[trigger] spec_retry_calls(outcomes, old(self).spec_retries() as nat)
                        == outcomes.len()
                    &&& r == spec_retry_result(outcomes, old(self).spec_retries() as nat)
                },
    {
        let retries = self.retries;
        let config = RetryConfig {
            max_attempts: retries,
            base_delay: DEFAULT_BACKOFF_BASE_MS,
            strategy: RetryStrategy::ExponentialBackoffWithJitter,
            only_retry_rate_limits: true,
        };
        let ghost mut outcomes: Seq<Result<String, LLMError>> = Seq::empty();
        let mut attempt: usize = 0;
        loop
            invariant
                attempt <= retries,
                retries == old(self).spec_retries(),
                config.max_attempts == retries,
                outcomes.len() == attempt,
                forall|i: int|
                    0 <= i < attempt ==> outcomes[i] is Err && spec_retryable(
                        #[trigger] outcomes[i]->Err_0,
                    ),
            decreases retries - attempt,
        {
            let outcome = self.llm.prompt(text.clone());
            proof {
                outcomes = outcomes.push(outcome);
            }
            match retry_step(&config, attempt, outcome) {
                RetryDecision::Finish(res) => {
                    proof {
                        lemma_retry_run_ends(outcomes, retries as nat);
                    }
                    return res;
                },
                RetryDecision::RetryAfter(_delay) => {
                    attempt = attempt + 1;
                },
            }
        }
    }
}

/// A retry decorator with explicit control over the backoff base delay
/// (in milliseconds), backing off without jitter; otherwise it behaves as
/// `RetryableLLM` does, including its inability to sleep.
pub struct ManualRetryLLM<L> {
    llm: L,
    max_retries: usize,
    base_delay: u64,
}

impl<L> ManualRetryLLM<L> {
    /// The maximum number of retry attempts this decorator issues.
    pub closed spec fn spec_max_retries(&self) -> usize {
        self.max_retries
    }

    /// The backoff base delay of this decorator, in milliseconds.
    pub closed spec fn spec_base_delay(&self) -> u64 {
        self.base_delay
    }

    /// Creates a new `ManualRetryLLM` with the given retry budget and
    /// backoff base delay in milliseconds.
    pub fn new(llm: L, max_retries: usize, base_delay: u64) -> (r: Self)
        ensures
            r.spec_max_retries() == max_retries,
            r.spec_base_delay() == base_delay,
    {
        Self { llm, max_retries, base_delay }
    }
}

impl<L: LLM> LLM for ManualRetryLLM<L> {
    fn prompt(&mut self, text: String) -> (r: Result<String, LLMError>)
        ensures
            exists|outcomes: Seq<Result<String, LLMError>>|
                {
                    &&& outcomes.len() >= 1
                    &&& #[trigger] spec_retry_calls(outcomes, old(self).spec_max_retries() as nat)
                        == outcomes.len()
                    &&& r == spec_retry_result(outcomes, old(self).spec_max_retries() as nat)
                },
    {
        let max_retries = self.max_retries;
        let config = RetryConfig {
            max_attempts: max_retries,
            base_delay: self.base_delay,
            strategy: RetryStrategy::ExponentialBackoff,
            only_retry_rate_limits: true,
        };
        let ghost mut outcomes: Seq<Result<String, LLMError>> = Seq::empty();
        let mut attempt: usize = 0;
        loop
            invariant
                attempt <= max_retries,
                max_retries == old(self).spec_max_retries(),
                config.max_attempts == max_retries,
                outcomes.len() == attempt,
                forall|i: int|
                    0 <= i < attempt ==> outcomes[i] is Err && spec_retryable(
                        #[trigger] outcomes[i]->Err_0,
                    ),
            decreases max_retries - attempt,
        {
            let outcome = self.llm.prompt(text.clone());
            proof {
                outcomes = outcomes.push(outcome);
            }
            match retry_step(&config, attempt, outcome) {
                RetryDecision::Finish(res) => {
                    proof {
                        lemma_retry_run_ends(outcomes, max_retries as nat);
                    }
                    return res;
                },
                RetryDecision::RetryAfter(_delay) => {
                    attempt = attempt + 1;
                },
            }
        }
    }
}

/// A retry decorator for boxed model trait objects, carrying the full retry
/// configuration the factory hands it; otherwise it behaves as
/// `RetryableLLM` does, including its inability to sleep.
pub struct BoxedRetryLLM {
    inner: Box<dyn LLM>,
    config: RetryConfig,
}

impl BoxedRetryLLM {
    /// The retry configuration this decorator applies.
    pub closed spec fn spec_config(&self) -> RetryConfig {
        self.config
    }

    /// Creates a new `BoxedRetryLLM` wrapper with the given configuration.
    pub fn new(inner: Box<dyn LLM>, config: RetryConfig) -> (r: Self)
        ensures
            r.spec_config() == config,
    {
        Self { inner, config }
    }
}

impl LLM for BoxedRetryLLM {
    fn prompt(&mut self, text: String) -> (r: Result<String, LLMError>)
        ensures
            exists|outcomes: Seq<Result<String, LLMError>>|
                {
                    &&& outcomes.len() >= 1
                    &&& #[trigger] spec_retry_calls(
                        outcomes,
                        old(self).spec_config().max_attempts as nat,
                    ) == outcomes.len()
                    &&& r == spec_retry_result(
                        outcomes,
                        old(self).spec_config().max_attempts as nat,
                    )
                },
    {
        let config = self.config;
        let max_attempts = config.max_attempts;
        let ghost mut outcomes: Seq<Result<String, LLMError>> = Seq::empty();
        let mut attempt: usize = 0;
        loop
            invariant
                attempt <= max_attempts,
                max_attempts == old(self).spec_config().max_attempts,
                config.max_attempts == max_attempts,
                outcomes.len() == attempt,
                forall|i: int|
                    0 <= i < attempt ==> outcomes[i] is Err && spec_retryable(
                        #[trigger] outcomes[i]->Err_0,
                    ),
            decreases max_attempts - attempt,
        {
            let outcome = self.inner.prompt(text.clone());
            proof {
                outcomes = outcomes.push(outcome);
            }
            match retry_step(&config, attempt, outcome) {
                RetryDecision::Finish(res) => {
                    proof {
                        lemma_retry_run_ends(outcomes, max_attempts as nat);
                    }
                    return res;
                },
                RetryDecision::RetryAfter(_delay) => {
                    attempt = attempt + 1;
                },
            }
        }
    }
}

} // verus!
