//! Connection parameters of a client and the policy by which it retries.

use crate::backoff::capped_delay;
use crate::backoff::capped_delay_nanos;
use crate::backoff::lemma_scaled_delay_monotonic;
use crate::backoff::lemma_scaled_delay_whole_factor;
use crate::backoff::BackoffFactor;
use crate::endpoint::parsed_url;
use crate::errors::PiError;
use crate::time::duration_nanos;
use crate::time::duration_of;
use crate::time::nanos_of;
use std::time::Duration;
use url::Url;
use vstd::arithmetic::power::pow;
use vstd::prelude::*;

verus! {

/// The endpoint of the service that a client talks to unless told otherwise.
pub const DEFAULT_BASE_URL: &'static str = "https://api.minepi.com/v2";

/// The name by which the client introduces itself.
pub const CLIENT_NAME: &'static str = "pi-rust";

/// The version that the client reports with its name.
pub const CLIENT_VERSION: &'static str = "0.1.0";

/// The seconds after which a request is given up, unless told otherwise.
pub const DEFAULT_TIMEOUT_SECS: u64 = 30;

/// The connection parameters of a client. A value is made by
/// [`ClientConfig::new`] or through a [`ClientConfigBuilder`] and is not
/// changed afterwards.
#[derive(Debug, Clone)]
pub struct ClientConfig {
    /// The credential; never empty.
    pub api_key: String,
    /// The endpoint of the service.
    pub base_url: Url,
    /// The time after which a request is given up.
    pub timeout: Duration,
    /// How failed requests are retried.
    pub retry_config: RetryConfig,
    /// The identification sent with every request: the name of the
    /// client, a slash and its version.
    pub user_agent: String,
}

impl ClientConfig {
    /// The identification of the client: its name, a slash, its version.
    pub open spec fn spec_user_agent() -> Seq<char> {
        CLIENT_NAME@ + "/"@ + CLIENT_VERSION@
    }

    /// This configuration holds the credential `api_key` and the endpoint
    /// `base_url`, and the default for everything else.
    pub open spec fn is_default_for(&self, api_key: Seq<char>, base_url: Url) -> bool {
        &&& self.api_key@ == api_key
        &&& self.base_url == base_url
        &&& duration_nanos(self.timeout) == DEFAULT_TIMEOUT_SECS * 1_000_000_000
        &&& self.retry_config@ == RetryConfig::default_view()
        &&& self.user_agent@ == Self::spec_user_agent()
    }

    /// This configuration with `timeout` in place of its timeout.
    pub open spec fn replacing_timeout(self, timeout: Duration) -> ClientConfig {
        ClientConfig { timeout, ..self }
    }

    /// This configuration with `base_url` in place of its endpoint.
    pub open spec fn replacing_base_url(self, base_url: Url) -> ClientConfig {
        ClientConfig { base_url, ..self }
    }

    /// The configuration for the credential `api_key` and the endpoint
    /// `base_url`, with the default for everything else. An empty
    /// credential is refused.
    pub fn with_base_url(api_key: String, base_url: Url) -> (made: Result<Self, PiError>)
        ensures
            api_key@.len() == 0 ==> (made matches Err(PiError::Configuration(message))
                && message@ == "API key cannot be empty"@),
            api_key@.len() > 0 ==> (made matches Ok(config) && config.is_default_for(
                api_key@,
                base_url,
            )),
    {
        if api_key.as_str().is_empty() {
            return Err(PiError::Configuration("API key cannot be empty".to_owned()));
        }
        let user_agent: String = CLIENT_NAME.to_owned().concat("/").concat(CLIENT_VERSION);
        Ok(
            ClientConfig {
                api_key,
                base_url,
                timeout: Duration::from_secs(DEFAULT_TIMEOUT_SECS),
                retry_config: RetryConfig::default(),
                user_agent,
            },
        )
    }

    /// The configuration for the credential `api_key`, with the default
    /// endpoint and the default for everything else. An empty credential
    /// is refused. Whether the default endpoint is a URL is for the parser
    /// to say; if it says no, that is reported as an error too.
    pub fn new(api_key: String) -> (made: Result<Self, PiError>)
        ensures
            api_key@.len() == 0 ==> (made matches Err(PiError::Configuration(message))
                && message@ == "API key cannot be empty"@),
            api_key@.len() > 0 ==> match parsed_url(DEFAULT_BASE_URL@) {
                Ok(base_url) => made matches Ok(config) && config.is_default_for(
                    api_key@,
                    base_url,
                ),
                Err(_) => made matches Err(PiError::Configuration(message)) && message@
                    == "Default base URL is not a URL"@,
            },
    {
        if api_key.as_str().is_empty() {
            return Err(PiError::Configuration("API key cannot be empty".to_owned()));
        }
        match Url::parse(DEFAULT_BASE_URL) {
            Ok(base_url) => Self::with_base_url(api_key, base_url),
            Err(_) => Err(PiError::Configuration("Default base URL is not a URL".to_owned())),
        }
    }

    /// A builder that starts from `ClientConfig::new(api_key)`. The
    /// credential must not be empty.
    pub fn builder(api_key: String) -> (start: ClientConfigBuilder)
        requires
            api_key@.len() > 0,
            parsed_url(DEFAULT_BASE_URL@) is Ok,
        ensures
            start@.is_default_for(api_key@, parsed_url(DEFAULT_BASE_URL@)->Ok_0),
    {
        ClientConfigBuilder::new(api_key)
    }

    /// A builder that starts from `ClientConfig::new(api_key)`, or the
    /// error with which `ClientConfig::new(api_key)` fails.
    pub fn try_builder(api_key: String) -> (start: Result<ClientConfigBuilder, PiError>)
        ensures
            api_key@.len() == 0 ==> (start matches Err(PiError::Configuration(message))
                && message@ == "API key cannot be empty"@),
            api_key@.len() > 0 ==> match parsed_url(DEFAULT_BASE_URL@) {
                Ok(base_url) => start matches Ok(builder) && builder@.is_default_for(
                    api_key@,
                    base_url,
                ),
                Err(_) => start matches Err(PiError::Configuration(message)) && message@
                    == "Default base URL is not a URL"@,
            },
    {
        if api_key.as_str().is_empty() {
            return Err(PiError::Configuration("API key cannot be empty".to_owned()));
        }
        match Url::parse(DEFAULT_BASE_URL) {
            Ok(_) => Ok(Self::builder(api_key)),
            Err(_) => Err(PiError::Configuration("Default base URL is not a URL".to_owned())),
        }
    }
}

/// Replacing the timeout is a pure override: the new configuration holds
/// exactly the duration given, whatever it is, and every other field as
/// before.
pub proof fn lemma_timeout_override(config: ClientConfig, timeout: Duration)
    ensures
        config.replacing_timeout(timeout).timeout == timeout,
        config.replacing_timeout(timeout).api_key == config.api_key,
        config.replacing_timeout(timeout).base_url == config.base_url,
        config.replacing_timeout(timeout).retry_config == config.retry_config,
        config.replacing_timeout(timeout).user_agent == config.user_agent,
{
}

/// Replacing the endpoint is a pure override: the new configuration holds
/// exactly the URL given, and every other field as before.
pub proof fn lemma_base_url_override(config: ClientConfig, base_url: Url)
    ensures
        config.replacing_base_url(base_url).base_url == base_url,
        config.replacing_base_url(base_url).api_key == config.api_key,
        config.replacing_base_url(base_url).timeout == config.timeout,
        config.replacing_base_url(base_url).retry_config == config.retry_config,
        config.replacing_base_url(base_url).user_agent == config.user_agent,
{
}

/// Builds a [`ClientConfig`] step by step, starting from the defaults.
pub struct ClientConfigBuilder {
    config: ClientConfig,
}

impl View for ClientConfigBuilder {
    type V = ClientConfig;

    /// The configuration that `build` would return.
    closed spec fn view(&self) -> ClientConfig {
        self.config
    }
}

impl ClientConfigBuilder {
    /// A builder that starts from `ClientConfig::new(api_key)`. The
    /// credential must not be empty.
    pub fn new(api_key: String) -> (start: Self)
        requires
            api_key@.len() > 0,
            parsed_url(DEFAULT_BASE_URL@) is Ok,
        ensures
            start@.is_default_for(api_key@, parsed_url(DEFAULT_BASE_URL@)->Ok_0),
    {
        ClientConfigBuilder { config: ClientConfig::new(api_key).expect("Invalid API key") }
    }

    /// Replaces the endpoint; nothing else changes.
    pub fn base_url(self, url: Url) -> (next: Self)
        ensures
            next@ == self@.replacing_base_url(url),
    {
        let mut next = self;
        next.config.base_url = url;
        next
    }

    /// Replaces the timeout; nothing else changes. Every duration is
    /// taken as it is.
    pub fn timeout(self, timeout: Duration) -> (next: Self)
        ensures
            next@ == self@.replacing_timeout(timeout),
    {
        let mut next = self;
        next.config.timeout = timeout;
        next
    }

    /// The configuration as built so far.
    pub fn build(self) -> (config: ClientConfig)
        ensures
            config == self@,
    {
        self.config
    }
}

/// How often a failed operation is tried again, and how long to wait before
/// each retry.
///
/// A policy written down field by field is taken as it is: a factor below
/// one makes the waits shrink, and a `max_delay` below `initial_delay` caps
/// every wait at `max_delay`.
#[derive(Debug, Clone)]
pub struct RetryConfig {
    /// The number of retries after the first attempt; 0 means a single
    /// attempt.
    pub max_retries: u32,
    /// The wait before the first retry.
    pub initial_delay: Duration,
    /// The ceiling that no wait exceeds.
    pub max_delay: Duration,
    /// The factor applied to the wait for each further retry.
    pub backoff_factor: BackoffFactor,
}

/// What a `RetryConfig` holds, with durations in nanoseconds.
pub struct RetryConfigView {
    pub max_retries: nat,
    pub initial_delay: nat,
    pub max_delay: nat,
    pub numerator: nat,
    pub denominator: nat,
}

impl RetryConfigView {
    /// The wait before retry number `attempt`, in nanoseconds: the initial
    /// delay scaled `attempt` times by the factor, and at most `max_delay`.
    pub open spec fn delay(self, attempt: nat) -> nat {
        capped_delay(self.initial_delay, self.numerator, self.denominator, self.max_delay, attempt)
    }
}

impl View for RetryConfig {
    type V = RetryConfigView;

    open spec fn view(&self) -> RetryConfigView {
        RetryConfigView {
            max_retries: self.max_retries as nat,
            initial_delay: duration_nanos(self.initial_delay),
            max_delay: duration_nanos(self.max_delay),
            numerator: self.backoff_factor.spec_numerator(),
            denominator: self.backoff_factor.spec_denominator(),
        }
    }
}

impl RetryConfig {
    /// The default policy: 3 retries, starting at 100 ms, doubling, and
    /// never waiting longer than 10 s.
    pub open spec fn default_view() -> RetryConfigView {
        RetryConfigView {
            max_retries: 3,
            initial_delay: 100_000_000,
            max_delay: 10_000_000_000,
            numerator: 2,
            denominator: 1,
        }
    }

    /// The wait before retry number `attempt`, where the first retry is
    /// number 0: `initial_delay` times the factor raised to `attempt`, cut
    /// to whole nanoseconds at each step, and at most `max_delay`.
    pub fn delay_for(&self, attempt: u32) -> (wait: Duration)
        ensures
            duration_nanos(wait) == self@.delay(attempt as nat),
            duration_nanos(wait) <= duration_nanos(self.max_delay),
    {
        let start: u128 = nanos_of(&self.initial_delay);
        let cap: u128 = nanos_of(&self.max_delay);
        let nanos: u128 = capped_delay_nanos(
            start,
            self.backoff_factor.numerator(),
            self.backoff_factor.denominator(),
            cap,
            attempt,
        );
        duration_of(nanos)
    }
}

impl Default for RetryConfig {
    fn default() -> (policy: Self)
        ensures
            policy@ == RetryConfig::default_view(),
    {
        RetryConfig {
            max_retries: 3,
            initial_delay: Duration::from_millis(100),
            max_delay: Duration::from_secs(10),
            backoff_factor: BackoffFactor::whole(2),
        }
    }
}

/// No wait is longer than `max_delay`, whatever the policy and the retry.
pub proof fn lemma_delay_at_most_max(policy: RetryConfigView, attempt: nat)
    ensures
        policy.delay(attempt) <= policy.max_delay,
{
}

/// With a factor of at least one, the wait before a retry is never shorter
/// than the wait before an earlier retry.
pub proof fn lemma_delay_monotonic(policy: RetryConfigView, earlier: nat, later: nat)
    requires
        0 < policy.denominator <= policy.numerator,
        earlier <= later,
    ensures
        policy.delay(earlier) <= policy.delay(later),
{
    lemma_scaled_delay_monotonic(
        policy.initial_delay,
        policy.numerator,
        policy.denominator,
        earlier,
        later,
    );
}

/// With a whole-number factor the wait is exactly the smaller of
/// `max_delay` and `initial_delay` times the factor raised to `attempt`.
pub proof fn lemma_delay_whole_factor(policy: RetryConfigView, attempt: nat)
    requires
        policy.denominator == 1,
    ensures
        policy.delay(attempt) == vstd::math::min(
            policy.initial_delay * pow(policy.numerator as int, attempt),
            policy.max_delay as int,
        ),
{
    lemma_scaled_delay_whole_factor(policy.initial_delay, policy.numerator, attempt);
}

} // verus!
