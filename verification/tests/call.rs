use serde_json::Value;
use swiss_ai::call::{CallEvent, CallState};
use swiss_ai::config::ConfigStore;
use swiss_ai::errors::{InputFault, NetworkFault, ProviderError, ShapeFault, TransportOutcome};
use swiss_ai::message::{Message, MessageContent, Role, Tool};
use swiss_ai::model::{ModelConfig, ProviderUsage, Usage};
use swiss_ai::provider::SwissAiProvider;
use swiss_ai::retry::RetryConfig;

fn doc(text: &str) -> Value {
    serde_json::from_str(text).unwrap()
}

fn provider() -> SwissAiProvider {
    let mut config = ConfigStore::new();
    config.set_secret("SWISS_AI_API_KEY", "tok");
    SwissAiProvider::from_env(ModelConfig::new("llama-3.3-70b-instruct"), &config).ok().unwrap()
}

fn hello() -> Vec<Message> {
    vec![Message { role: Role::User, content: vec![MessageContent::Text("hello".to_string())] }]
}

fn status(code: u16) -> CallEvent {
    CallEvent::Outcome(TransportOutcome::Response { status: code, body: None })
}

fn answer(text: &str) -> CallEvent {
    CallEvent::Outcome(TransportOutcome::Response { status: 200, body: Some(doc(text)) })
}

fn payload() -> Value {
    doc(
        r#"{"model": "llama-3.3-70b-instruct",
            "messages": [{"role": "system", "content": "sys"},
                         {"role": "user", "content": "hello"}]}"#,
    )
}

const FULL: &str = r#"{"model": "llama-3.3-70b-instruct-v2",
    "choices": [{"message": {"role": "assistant", "content": "hi"}}],
    "usage": {"prompt_tokens": 4, "completion_tokens": 1, "total_tokens": 5}}"#;

fn said(text: &str) -> Message {
    Message { role: Role::Assistant, content: vec![MessageContent::Text(text.to_string())] }
}

#[test]
fn a_call_starts_by_sending_the_encoded_request() {
    let state = provider().start("sys", &hello(), &[]);
    assert_eq!(state, CallState::Sending { payload: payload(), retries: 0 });
}

#[test]
fn a_call_that_cannot_be_encoded_fails_before_anything_is_sent() {
    let tool = Tool { name: "t".to_string(), description: String::new(), input_schema: doc("{}") };
    let state = provider().start("sys", &hello(), &[tool.clone(), tool]);
    assert_eq!(
        state,
        CallState::Failed {
            error: ProviderError::MalformedInput { fault: InputFault::DuplicateTool }
        }
    );
}

#[test]
fn a_success_at_once_is_done() {
    let provider = provider();
    let state = provider.start("sys", &hello(), &[]);
    let state = provider.step(state, answer(FULL));
    assert_eq!(
        state,
        CallState::Done {
            message: said("hi"),
            usage: ProviderUsage {
                model: "llama-3.3-70b-instruct-v2".to_string(),
                usage: Usage { input_tokens: 4, output_tokens: 1, total_tokens: 5 },
            },
        }
    );
}

#[test]
fn two_server_errors_then_success_sends_three_times() {
    let provider = provider();
    let mut sent = 0;
    let mut state = provider.start("sys", &hello(), &[]);
    assert_eq!(state, CallState::Sending { payload: payload(), retries: 0 });
    sent += 1;
    state = provider.step(state, status(500));
    assert_eq!(state, CallState::Waiting { payload: payload(), retries: 0, delay_ms: 1000 });
    state = provider.step(state, CallEvent::Waited);
    assert_eq!(state, CallState::Sending { payload: payload(), retries: 1 });
    sent += 1;
    state = provider.step(state, status(503));
    assert_eq!(state, CallState::Waiting { payload: payload(), retries: 1, delay_ms: 2000 });
    state = provider.step(state, CallEvent::Waited);
    assert_eq!(state, CallState::Sending { payload: payload(), retries: 2 });
    sent += 1;
    state = provider.step(state, answer(FULL));
    assert!(matches!(state, CallState::Done { .. }));
    assert_eq!(sent, 3);
}

#[test]
fn an_authentication_failure_is_not_retried() {
    let provider = provider();
    let state = provider.start("sys", &hello(), &[]);
    let state = provider.step(state, status(401));
    assert_eq!(state, CallState::Failed { error: ProviderError::Authentication { status: 401 } });
}

#[test]
fn the_last_error_stands_when_the_ceiling_is_reached() {
    let provider = provider().with_retry(RetryConfig {
        max_attempts: 2,
        base_delay_ms: 5,
        max_delay_ms: 50,
    });
    let state = provider.start("sys", &hello(), &[]);
    let state = provider.step(state, status(500));
    assert_eq!(state, CallState::Waiting { payload: payload(), retries: 0, delay_ms: 5 });
    let state = provider.step(state, CallEvent::Waited);
    let state = provider.step(state, CallEvent::Outcome(TransportOutcome::TimedOut));
    assert_eq!(
        state,
        CallState::Failed {
            error: ProviderError::TransientNetwork { cause: NetworkFault::Timeout }
        }
    );
}

#[test]
fn throttling_and_lost_connections_are_retried() {
    let provider = provider();
    let state = provider.start("sys", &hello(), &[]);
    let state = provider.step(state, status(429));
    assert_eq!(state, CallState::Waiting { payload: payload(), retries: 0, delay_ms: 1000 });
    let state = provider.step(state, CallEvent::Waited);
    let state = provider.step(state, CallEvent::Outcome(TransportOutcome::ConnectionFailed));
    assert_eq!(state, CallState::Waiting { payload: payload(), retries: 1, delay_ms: 2000 });
}

#[test]
fn a_response_without_usage_is_a_success_with_zero_tokens() {
    let provider = provider();
    let state = provider.start("sys", &hello(), &[]);
    let state =
        provider.step(state, answer(r#"{"choices": [{"message": {"content": "hi"}}]}"#));
    assert_eq!(
        state,
        CallState::Done {
            message: said("hi"),
            usage: ProviderUsage {
                model: "llama-3.3-70b-instruct".to_string(),
                usage: Usage { input_tokens: 0, output_tokens: 0, total_tokens: 0 },
            },
        }
    );
}

#[test]
fn finish_falls_back_on_the_configured_model_and_zero_usage() {
    let provider = provider();
    let response = doc(r#"{"choices": [{"message": {"content": "hi"}}], "usage": "n/a"}"#);
    assert_eq!(
        provider.finish(&response),
        Ok((
            said("hi"),
            ProviderUsage::new("llama-3.3-70b-instruct".to_string(), Usage::zero())
        ))
    );
    assert_eq!(
        provider.finish(&doc(FULL)),
        Ok((
            said("hi"),
            ProviderUsage::new(
                "llama-3.3-70b-instruct-v2".to_string(),
                Usage { input_tokens: 4, output_tokens: 1, total_tokens: 5 }
            )
        ))
    );
}

#[test]
fn a_response_without_its_message_fails_the_call() {
    let provider = provider();
    let state = provider.start("sys", &hello(), &[]);
    let state = provider.step(
        state,
        answer(r#"{"model": "m", "usage": {"prompt_tokens": 1, "total_tokens": 1}}"#),
    );
    assert_eq!(
        state,
        CallState::Failed {
            error: ProviderError::ResponseShape { defect: ShapeFault::MissingMessage }
        }
    );
    assert_eq!(
        provider.finish(&doc(r#"{"usage": {}}"#)),
        Err(ProviderError::ResponseShape { defect: ShapeFault::MissingMessage })
    );
}

#[test]
fn an_unreadable_body_fails_the_call_without_retry() {
    let provider = provider();
    let state = provider.start("sys", &hello(), &[]);
    let state = provider.step(state, status(200));
    assert_eq!(
        state,
        CallState::Failed {
            error: ProviderError::ResponseShape { defect: ShapeFault::UnreadableBody }
        }
    );
}

#[test]
fn events_that_were_not_asked_for_change_nothing() {
    let provider = provider();
    let state = provider.start("sys", &hello(), &[]);
    let state = provider.step(state, CallEvent::Waited);
    assert_eq!(state, CallState::Sending { payload: payload(), retries: 0 });
    let state = provider.step(state, status(500));
    let state = provider.step(state, answer(FULL));
    assert_eq!(state, CallState::Waiting { payload: payload(), retries: 0, delay_ms: 1000 });
}

#[test]
fn final_states_stay() {
    let provider = provider();
    let done = provider.step(provider.start("sys", &hello(), &[]), answer(FULL));
    let again = provider.step(done, status(500));
    assert!(matches!(again, CallState::Done { .. }));
    let again = provider.step(again, CallEvent::Waited);
    assert!(matches!(again, CallState::Done { .. }));
    let failed = provider.step(provider.start("sys", &hello(), &[]), status(403));
    let again = provider.step(failed, answer(FULL));
    assert_eq!(again, CallState::Failed { error: ProviderError::Authentication { status: 403 } });
}

#[test]
fn the_attempt_counter_stops_at_its_top() {
    let provider = provider();
    let state = CallState::Waiting { payload: payload(), retries: u32::MAX, delay_ms: 1 };
    assert_eq!(
        provider.step(state, CallEvent::Waited),
        CallState::Sending { payload: payload(), retries: u32::MAX }
    );
}
