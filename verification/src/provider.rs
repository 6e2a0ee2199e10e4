//! The adapter for the Swiss AI Platform.
//!
//! The adapter owns no connection. It says what to send and where, and it
//! turns what comes back into the next state of the call; the caller does
//! the sending and the waiting in between.

use crate::auth::{AuthMethod, AuthView};
use crate::call::{next_state, start_state, CallEvent, CallState};
use crate::config::ConfigStore;
use crate::decode::{get_model, get_usage, response_to_message};
use crate::encode::create_request;
use crate::errors::{handle_response, outcome_result, ProviderError, ShapeFault, TransportOutcome};
use crate::json::{json, Json};
use crate::listing::{listing, same_members, sorted_model_ids, texts};
use crate::message::{message_views, tool_views, Message, MessageView, Tool};
use crate::metadata::{models_named, ConfigKey, ConfigKeyView, MetadataView, ProviderMetadata};
use crate::model::{ModelConfig, ModelConfigView, ProviderUsage, ProviderUsageView, Usage};
use crate::retry::{RetryConfig, Verdict};
use crate::text::{ascending, distinct};
use crate::wire;
use serde_json::Value;
use vstd::prelude::*;

verus! {

pub const SWISS_AI_API_HOST: &'static str = "https://api.swiss-ai-platform.ch";

pub const SWISS_AI_DEFAULT_MODEL: &'static str = "llama-3.3-70b-instruct";

pub const SWISS_AI_KNOWN_MODELS: [&'static str; 2] = [
    "llama-3.3-70b-instruct",
    "llama-4-405b-instruct",
];

pub const SWISS_AI_DOC_URL: &'static str = "https://docs.swiss-ai-platform.ch/models";

/// The adapter: where the backend is, how to authenticate, which model to
/// ask for and how patiently. It holds the credential and cannot be printed.
#[derive(Clone, PartialEq, Eq)]
pub struct SwissAiProvider {
    host: String,
    auth: AuthMethod,
    model: ModelConfig,
    retry: RetryConfig,
}

/// The mathematical reading of a [`SwissAiProvider`].
pub struct ProviderView {
    pub host: Seq<char>,
    pub auth: AuthView,
    pub model: ModelConfigView,
    pub retry: RetryConfig,
}

impl View for SwissAiProvider {
    type V = ProviderView;

    closed spec fn view(&self) -> ProviderView {
        ProviderView { host: self.host@, auth: self.auth@, model: self.model@, retry: self.retry }
    }
}

/// The provider that a configuration and a model give: `None` where the
/// credential is not set.
pub open spec fn configured(
    model: ModelConfigView,
    secrets: Map<Seq<char>, Seq<char>>,
    params: Map<Seq<char>, Seq<char>>,
) -> Option<ProviderView> {
    if secrets.contains_key("SWISS_AI_API_KEY"@) {
        Some(
            ProviderView {
                host: if params.contains_key("SWISS_AI_HOST"@) {
                    params["SWISS_AI_HOST"@]
                } else {
                    SWISS_AI_API_HOST@
                },
                auth: AuthView::BearerToken(secrets["SWISS_AI_API_KEY"@]),
                model,
                retry: RetryConfig { max_attempts: 4, base_delay_ms: 1000, max_delay_ms: 30000 },
            },
        )
    } else {
        None
    }
}

/// What the provider publishes about itself.
pub open spec fn descriptor() -> MetadataView {
    MetadataView {
        name: "swiss-ai"@,
        display_name: "Swiss AI Platform"@,
        description: "Swiss AI Platform with Llama models"@,
        default_model: SWISS_AI_DEFAULT_MODEL@,
        known_models: models_named(seq!["llama-3.3-70b-instruct"@, "llama-4-405b-instruct"@]),
        model_doc_link: SWISS_AI_DOC_URL@,
        config_keys: seq![
            ConfigKeyView { name: "SWISS_AI_API_KEY"@, required: true, secret: true, default: None },
            ConfigKeyView {
                name: "SWISS_AI_HOST"@,
                required: false,
                secret: false,
                default: Some(SWISS_AI_API_HOST@),
            },
        ],
    }
}

/// What a successful response amounts to: the message it carries, the model
/// it names, or else the configured one, and the usage it states, or else
/// none at all. Only a response without a readable message is a failure.
pub open spec fn completion(configured_model: Seq<char>, response: Json) -> Result<
    (MessageView, ProviderUsageView),
    ProviderError,
> {
    match wire::response_message(response) {
        Err(defect) => Err(ProviderError::ResponseShape { defect }),
        Ok(message) => Ok(
            (
                message,
                ProviderUsageView {
                    model: match wire::reported_model(response) {
                        Some(model) => model,
                        None => configured_model,
                    },
                    usage: match wire::response_usage(response) {
                        Some(usage) => usage,
                        None => Usage::zeroed(),
                    },
                },
            ),
        ),
    }
}

impl SwissAiProvider {
    /// Builds the adapter from a configuration.
    ///
    /// The secret `SWISS_AI_API_KEY` is required and becomes the bearer
    /// token. The parameter `SWISS_AI_HOST` replaces the default host where
    /// it is set. Nothing is sent anywhere.
    pub fn from_env(model: ModelConfig, config: &ConfigStore) -> (r: Result<
        SwissAiProvider,
        ProviderError,
    >)
        ensures
            match configured(model@, config@.secrets, config@.params) {
                Some(provider) => r matches Ok(built) && built@ == provider,
                None => r matches Err(ProviderError::Configuration { key }) && key@
                    == "SWISS_AI_API_KEY"@,
            },
    {
        let api_key = match config.get_secret("SWISS_AI_API_KEY") {
            Some(value) => value.clone(),
            None => {
                return Err(
                    ProviderError::Configuration { key: String::from_str("SWISS_AI_API_KEY") },
                );
            },
        };
        let host = match config.get_param("SWISS_AI_HOST") {
            Some(value) => value.clone(),
            None => String::from_str(SWISS_AI_API_HOST),
        };
        Ok(
            SwissAiProvider {
                host,
                auth: AuthMethod::BearerToken(api_key),
                model,
                retry: RetryConfig::standard(),
            },
        )
    }

    /// The same adapter with another retry policy.
    pub fn with_retry(self, retry: RetryConfig) -> (r: SwissAiProvider)
        ensures
            r@ == (ProviderView { retry, ..self@ }),
    {
        SwissAiProvider { host: self.host, auth: self.auth, model: self.model, retry }
    }

    /// Describes the provider. Needs no adapter and no credentials, and
    /// gives the same description every time.
    pub fn metadata() -> (r: ProviderMetadata)
        ensures
            r@ == descriptor(),
            r@.well_formed(),
    {
        let mut names: Vec<&str> = Vec::new();
        names.push(SWISS_AI_KNOWN_MODELS[0]);
        names.push(SWISS_AI_KNOWN_MODELS[1]);
        let mut keys: Vec<ConfigKey> = Vec::new();
        keys.push(ConfigKey::new("SWISS_AI_API_KEY", true, true, None));
        keys.push(ConfigKey::new("SWISS_AI_HOST", false, false, Some(SWISS_AI_API_HOST)));
        let described = ProviderMetadata::new(
            "swiss-ai",
            "Swiss AI Platform",
            "Swiss AI Platform with Llama models",
            SWISS_AI_DEFAULT_MODEL,
            names,
            SWISS_AI_DOC_URL,
            keys,
        );
        proof {
            assert(described@.known_models =~= descriptor().known_models);
            assert(described@.config_keys =~= descriptor().config_keys);
        }
        described
    }

    /// The model that the adapter targets.
    pub fn get_model_config(&self) -> (r: ModelConfig)
        ensures
            r@ == self@.model,
    {
        ModelConfig {
            model_name: self.model.model_name.clone(),
            context_limit: self.model.context_limit,
            max_tokens: self.model.max_tokens,
        }
    }

    /// The retry policy of the adapter.
    pub fn retry_config(&self) -> (r: RetryConfig)
        ensures
            r == self@.retry,
    {
        self.retry
    }

    /// The header that authenticates a request, as name and value.
    pub fn auth_header(&self) -> (r: Option<(String, String)>)
        ensures
            match self@.auth.header() {
                Some((name, value)) => r matches Some(pair) && pair.0@ == name && pair.1@ == value,
                None => r is None,
            },
    {
        self.auth.header()
    }

    /// Where completions are posted: `{host}/v1/chat/completions`.
    pub fn completions_url(&self) -> (r: String)
        ensures
            r@ == self@.host + "/v1/chat/completions"@,
    {
        self.host.clone().concat("/v1/chat/completions")
    }

    /// Where the model listing is read: `{host}/v1/models`.
    pub fn models_url(&self) -> (r: String)
        ensures
            r@ == self@.host + "/v1/models"@,
    {
        self.host.clone().concat("/v1/models")
    }

    /// Reads a successful response: the message, and the usage under the
    /// model that answered. A response without usage is accounted as zero
    /// tokens; one that names no model is accounted to the configured one.
    pub fn finish(&self, response: &Value) -> (r: Result<(Message, ProviderUsage), ProviderError>)
        ensures
            match completion(self@.model.model_name, json(*response)) {
                Ok((message, usage)) => r matches Ok(pair) && pair.0@ == message && pair.1@
                    == usage,
                Err(error) => r matches Err(found) && found == error,
            },
    {
        let message = match response_to_message(response) {
            Ok(message) => message,
            Err(error) => {
                return Err(error);
            },
        };
        let usage = match get_usage(response) {
            Some(usage) => usage,
            None => Usage::zero(),
        };
        let model = match get_model(response) {
            Some(model) => model,
            None => self.model.model_name.clone(),
        };
        Ok((message, ProviderUsage::new(model, usage)))
    }

    /// Starts a call: encodes the conversation once, for every attempt.
    pub fn start(&self, system: &str, messages: &[Message], tools: &[Tool]) -> (r: CallState)
        ensures
            r@ == start_state(self@, system@, message_views(messages@), tool_views(tools@)),
    {
        match create_request(&self.model, system, messages, tools) {
            Ok(payload) => CallState::Sending { payload, retries: 0 },
            Err(error) => CallState::Failed { error },
        }
    }

    /// Moves a call on by one event.
    pub fn step(&self, state: CallState, event: CallEvent) -> (r: CallState)
        ensures
            r@ == next_state(self@, state@, event),
    {
        match state {
            CallState::Sending { payload, retries } => match event {
                CallEvent::Outcome(outcome) => {
                    let result = handle_response(outcome);
                    match self.retry.verdict(retries, &result) {
                        Verdict::RetryAfter { delay_ms } => CallState::Waiting {
                            payload,
                            retries,
                            delay_ms,
                        },
                        Verdict::Finish => match result {
                            Ok(response) => match self.finish(&response) {
                                Ok((message, usage)) => CallState::Done { message, usage },
                                Err(error) => CallState::Failed { error },
                            },
                            Err(error) => CallState::Failed { error },
                        },
                    }
                },
                CallEvent::Waited => CallState::Sending { payload, retries },
            },
            CallState::Waiting { payload, retries, delay_ms } => match event {
                CallEvent::Waited => CallState::Sending {
                    payload,
                    retries: if retries < u32::MAX {
                        retries + 1
                    } else {
                        retries
                    },
                },
                CallEvent::Outcome(_) => CallState::Waiting { payload, retries, delay_ms },
            },
            CallState::Done { message, usage } => CallState::Done { message, usage },
            CallState::Failed { error } => CallState::Failed { error },
        }
    }

    /// Reads the outcome of `GET {host}/v1/models`: the ids of the models on
    /// offer, each once, in dictionary order.
    ///
    /// A failure of the transport is handed on as it is classified. A
    /// response without a `data` array is a failure of its own and no empty
    /// list. The backend has a listing, so the answer is never `Ok(None)`.
    pub fn fetch_supported_models(outcome: TransportOutcome) -> (r: Result<
        Option<Vec<String>>,
        ProviderError,
    >)
        ensures
            match outcome_result(outcome) {
                Err(error) => r matches Err(found) && found == error,
                Ok(response) => match listing(json(response)) {
                    Some(ids) => r matches Ok(Some(names)) && ascending(texts(names@)) && distinct(
                        texts(names@),
                    ) && same_members(texts(names@), ids),
                    None => r matches Err(
                        ProviderError::ResponseShape { defect: ShapeFault::MissingListing },
                    ),
                },
            },
    {
        let response = match handle_response(outcome) {
            Ok(response) => response,
            Err(error) => {
                return Err(error);
            },
        };
        match sorted_model_ids(&response) {
            Ok(names) => Ok(Some(names)),
            Err(error) => Err(error),
        }
    }
}

} // verus!
