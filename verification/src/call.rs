//! One completion call as a state machine.
//!
//! A call starts by encoding the conversation. From then on each state asks
//! the caller for one thing: `Sending` for the payload to be posted,
//! `Waiting` for the delay to pass. The caller reports back with an event,
//! and the adapter answers with the next state, until the call is `Done` or
//! `Failed`. Encoding and decoding happen inside the transitions. Attempts
//! follow one another; nothing of a call outlives it.

use crate::errors::{outcome_result, ProviderError, ShapeFault, TransportOutcome};
use crate::json::{json, Json};
use crate::message::{Message, MessageView, ToolView};
use crate::model::{ProviderUsage, ProviderUsageView, Usage};
use crate::provider::{completion, ProviderView};
use crate::retry::{lemma_backoff_capped, Verdict};
use crate::wire;
use serde_json::Value;
use vstd::prelude::*;

verus! {

/// Where a call stands.
#[derive(Debug, PartialEq, Eq)]
pub enum CallState {
    /// The payload is to be posted; `retries` attempts have failed before.
    Sending { payload: Value, retries: u32 },
    /// The delay is to pass before the payload is posted again.
    Waiting { payload: Value, retries: u32, delay_ms: u64 },
    /// The call has succeeded.
    Done { message: Message, usage: ProviderUsage },
    /// The call has failed, for good.
    Failed { error: ProviderError },
}

/// The mathematical reading of a [`CallState`].
pub enum CallStateView {
    Sending { payload: Json, retries: u32 },
    Waiting { payload: Json, retries: u32, delay_ms: u64 },
    Done { message: MessageView, usage: ProviderUsageView },
    Failed { error: ProviderError },
}

impl View for CallState {
    type V = CallStateView;

    open spec fn view(&self) -> CallStateView {
        match self {
            CallState::Sending { payload, retries } => CallStateView::Sending {
                payload: json(*payload),
                retries: *retries,
            },
            CallState::Waiting { payload, retries, delay_ms } => CallStateView::Waiting {
                payload: json(*payload),
                retries: *retries,
                delay_ms: *delay_ms,
            },
            CallState::Done { message, usage } => CallStateView::Done {
                message: message@,
                usage: usage@,
            },
            CallState::Failed { error } => CallStateView::Failed { error: *error },
        }
    }
}

/// What the caller reports.
#[derive(Debug, PartialEq, Eq)]
pub enum CallEvent {
    /// The payload was posted, with this outcome.
    Outcome(TransportOutcome),
    /// The delay has passed.
    Waited,
}

/// The state in which a call starts: ready to send the request, or failed
/// where the conversation cannot be encoded.
pub open spec fn start_state(
    provider: ProviderView,
    system: Seq<char>,
    messages: Seq<MessageView>,
    tools: Seq<ToolView>,
) -> CallStateView {
    match wire::request(provider.model, system, messages, tools) {
        Ok(payload) => CallStateView::Sending { payload, retries: 0 },
        Err(fault) => CallStateView::Failed { error: ProviderError::MalformedInput { fault } },
    }
}

/// The state that ends a call whose last attempt had this result.
pub open spec fn end_state(
    provider: ProviderView,
    result: Result<Value, ProviderError>,
) -> CallStateView {
    match result {
        Ok(response) => match completion(provider.model.model_name, json(response)) {
            Ok((message, usage)) => CallStateView::Done { message, usage },
            Err(error) => CallStateView::Failed { error },
        },
        Err(error) => CallStateView::Failed { error },
    }
}

/// The state that follows `state` on `event`.
///
/// An outcome while sending ends the call or, by the retry policy, leads to
/// waiting with the same payload. A delay that has passed leads back to
/// sending. An event that the state did not ask for changes nothing, and
/// the two final states never change.
pub open spec fn next_state(
    provider: ProviderView,
    state: CallStateView,
    event: CallEvent,
) -> CallStateView {
    match (state, event) {
        (CallStateView::Sending { payload, retries }, CallEvent::Outcome(outcome)) => {
            let result = outcome_result(outcome);
            match provider.retry.verdict_on(retries, result) {
                Verdict::RetryAfter { delay_ms } => CallStateView::Waiting {
                    payload,
                    retries,
                    delay_ms,
                },
                Verdict::Finish => end_state(provider, result),
            }
        },
        (CallStateView::Waiting { payload, retries, delay_ms }, CallEvent::Waited) => {
            CallStateView::Sending {
                payload,
                retries: if retries < u32::MAX {
                    (retries + 1) as u32
                } else {
                    retries
                },
            }
        },
        (other, _) => other,
    }
}

/// What holds of every state that a call passes through: the attempts stay
/// within the ceiling, and a wait lasts as long as the policy says.
pub open spec fn admissible(provider: ProviderView, state: CallStateView) -> bool {
    match state {
        CallStateView::Sending { retries, .. } => retries == 0 || retries
            < provider.retry.max_attempts,
        CallStateView::Waiting { retries, delay_ms, .. } => retries + 1
            < provider.retry.max_attempts && delay_ms == provider.retry.delay(retries as nat),
        _ => true,
    }
}

/// The payload that a state holds, where it holds one.
pub open spec fn payload_of(state: CallStateView) -> Option<Json> {
    match state {
        CallStateView::Sending { payload, .. } => Some(payload),
        CallStateView::Waiting { payload, .. } => Some(payload),
        _ => None,
    }
}

/// A call starts in an admissible state.
pub proof fn lemma_start_is_admissible(
    provider: ProviderView,
    system: Seq<char>,
    messages: Seq<MessageView>,
    tools: Seq<ToolView>,
)
    ensures
        admissible(provider, start_state(provider, system, messages, tools)),
{
}

/// No event leads out of the admissible states.
pub proof fn lemma_step_keeps_admissible(
    provider: ProviderView,
    state: CallStateView,
    event: CallEvent,
)
    requires
        admissible(provider, state),
    ensures
        admissible(provider, next_state(provider, state, event)),
{
    lemma_backoff_capped(
        provider.retry.base_delay_ms as nat,
        provider.retry.max_delay_ms as nat,
        match state {
            CallStateView::Sending { retries, .. } => retries as nat,
            _ => 0,
        },
    );
}

/// Every attempt of a call sends the same payload: a state that holds one
/// after an event holds the one from before.
pub proof fn lemma_payload_is_kept(provider: ProviderView, state: CallStateView, event: CallEvent)
    ensures
        payload_of(next_state(provider, state, event)) is Some ==> payload_of(
            next_state(provider, state, event),
        ) == payload_of(state),
{
}

/// The two final states are final.
pub proof fn lemma_final_states_stay(provider: ProviderView, state: CallStateView, event: CallEvent)
    requires
        state is Done || state is Failed,
    ensures
        next_state(provider, state, event) == state,
{
}

/// A response that carries a message but no usage is a success, accounted
/// as zero tokens.
pub proof fn lemma_missing_usage_counts_zero(configured_model: Seq<char>, response: Json)
    requires
        response.member("usage"@) is None,
        wire::response_message(response) is Ok,
    ensures
        completion(configured_model, response) matches Ok(pair) && pair.1.usage == Usage::zeroed(),
{
}

/// A response without `choices`, and so without a message, is a failure of
/// shape.
pub proof fn lemma_missing_message_fails(configured_model: Seq<char>, response: Json)
    requires
        response.member("choices"@) is None,
    ensures
        completion(configured_model, response) == Err::<
            (MessageView, ProviderUsageView),
            ProviderError,
        >(ProviderError::ResponseShape { defect: ShapeFault::MissingMessage }),
{
}

/// A response that names no model is accounted to the configured one.
pub proof fn lemma_model_falls_back(configured_model: Seq<char>, response: Json)
    requires
        response.member("model"@) is None,
        wire::response_message(response) is Ok,
    ensures
        completion(configured_model, response) matches Ok(pair) && pair.1.model
            == configured_model,
{
}

} // verus!
