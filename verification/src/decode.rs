//! From the response document to the message, its token accounting and the
//! model that answered.

use crate::errors::{ProviderError, ShapeFault};
use crate::json::{get, json, json_seq};
use crate::message::{content_views, Message, MessageContent, Role};
use crate::model::Usage;
use crate::wire;
use serde_json::Value;
use vstd::prelude::*;

verus! {

/// The string member `key` of an object.
fn text_member<'a>(v: &'a Value, key: &str) -> (r: Option<&'a str>)
    ensures
        match r {
            Some(text) => json(*v).text_member(key@) == Some(text@),
            None => json(*v).text_member(key@).is_none(),
        },
{
    match get(v, key) {
        Some(field) => field.as_str(),
        None => None,
    }
}

/// The tool request that one element of `tool_calls` carries.
fn decode_call(call: &Value) -> (r: Option<MessageContent>)
    ensures
        match wire::decoded_call(json(*call)) {
            Some(part) => r matches Some(found) && found@ == part,
            None => r is None,
        },
{
    let id = match text_member(call, "id") {
        Some(id) => id,
        None => {
            return None;
        },
    };
    let function = match get(call, "function") {
        Some(function) => function,
        None => {
            return None;
        },
    };
    let name = match text_member(function, "name") {
        Some(name) => name,
        None => {
            return None;
        },
    };
    let arguments = match text_member(function, "arguments") {
        Some(arguments) => arguments,
        None => {
            return None;
        },
    };
    Some(
        MessageContent::ToolRequest {
            id: String::from_str(id),
            name: String::from_str(name),
            arguments: String::from_str(arguments),
        },
    )
}

/// The wire message of a response.
fn carried(response: &Value) -> (r: Option<&Value>)
    ensures
        match r {
            Some(found) => wire::carried(json(*response)) == Some(json(*found)),
            None => wire::carried(json(*response)).is_none(),
        },
{
    let choices = match get(response, "choices") {
        Some(field) => match field.as_array() {
            Some(choices) => choices,
            None => {
                return None;
            },
        },
        None => {
            return None;
        },
    };
    if choices.len() == 0 {
        return None;
    }
    assert(json_seq(choices@)[0] == json(choices@[0]));
    match get(&choices[0], "message") {
        Some(found) => if found.is_object() {
            Some(found)
        } else {
            None
        },
        None => None,
    }
}

/// Reads the assistant message out of a response.
///
/// Fails where the response holds no first choice with a message object,
/// and where one of the message's tool calls lacks a part. A message
/// without text, or without tool calls, is no failure.
pub fn response_to_message(response: &Value) -> (r: Result<Message, ProviderError>)
    ensures
        match wire::response_message(json(*response)) {
            Ok(carried) => r matches Ok(message) && message@ == carried,
            Err(defect) => r matches Err(ProviderError::ResponseShape { defect: found }) && found
                == defect,
        },
{
    let found = match carried(response) {
        Some(found) => found,
        None => {
            return Err(ProviderError::ResponseShape { defect: ShapeFault::MissingMessage });
        },
    };
    let ghost document = json(*found);
    let mut content: Vec<MessageContent> = Vec::new();
    match text_member(found, "content") {
        Some(text) => {
            content.push(MessageContent::Text(String::from_str(text)));
        },
        None => {},
    }
    assert(content_views(content@) =~= wire::spoken_in(document));
    match get(found, "tool_calls") {
        Some(field) => match field.as_array() {
            Some(calls) => {
                let ghost listed = json_seq(calls@);
                assert(listed == wire::calls_in(document));
                let mut i: usize = 0;
                while i < calls.len()
                    invariant
                        i <= calls.len(),
                        listed == json_seq(calls@),
                        listed == wire::calls_in(document),
                        document == json(*found),
                        wire::carried(json(*response)) == Some(document),
                        forall|k: int| 0 <= k < i ==> wire::decoded_call(#[trigger] listed[k]) is Some,
                        content_views(content@) == wire::spoken_in(document) + listed.take(
                            i as int,
                        ).map_values(|call| wire::decoded_call(call).unwrap()),
                    decreases calls.len() - i,
                {
                    assert(listed[i as int] == json(calls@[i as int]));
                    match decode_call(&calls[i]) {
                        Some(part) => {
                            let ghost prior = content_views(content@);
                            content.push(part);
                            assert(content_views(content@) =~= prior.push(part@));
                            assert(content_views(content@) =~= wire::spoken_in(document)
                                + listed.take(i + 1).map_values(
                                |call| wire::decoded_call(call).unwrap(),
                            ));
                        },
                        None => {
                            assert(wire::decoded_call(listed[i as int]) is None);
                            return Err(
                                ProviderError::ResponseShape {
                                    defect: ShapeFault::MalformedToolCall,
                                },
                            );
                        },
                    }
                    i = i + 1;
                }
                assert(listed.take(i as int) == listed);
            },
            None => {
                assert(wire::calls_in(document) =~= Seq::empty());
                assert(content_views(content@) =~= wire::spoken_in(document) + wire::calls_in(
                    document,
                ).map_values(|call| wire::decoded_call(call).unwrap()));
            },
        },
        None => {
            assert(wire::calls_in(document) =~= Seq::empty());
            assert(content_views(content@) =~= wire::spoken_in(document) + wire::calls_in(
                document,
            ).map_values(|call| wire::decoded_call(call).unwrap()));
        },
    }
    Ok(Message { role: Role::Assistant, content })
}

/// The count `key` of a usage object, where it is stated.
fn count_member(usage: &Value, key: &str) -> (r: Option<u64>)
    ensures
        r is Some <==> wire::states(json(*usage), key@),
        r matches Some(n) ==> n == wire::tokens(json(*usage), key@),
        r is None ==> wire::tokens(json(*usage), key@) == 0,
{
    match get(usage, key) {
        Some(field) => field.as_u64(),
        None => None,
    }
}

/// Reads the token accounting of a response. A response without a usage
/// object has none, which is no failure.
pub fn get_usage(response: &Value) -> (r: Option<Usage>)
    ensures
        r == wire::response_usage(json(*response)),
{
    let usage = match get(response, "usage") {
        Some(usage) => usage,
        None => {
            return None;
        },
    };
    if !usage.is_object() {
        return None;
    }
    let input: u64 = match count_member(usage, "prompt_tokens") {
        Some(n) => n,
        None => 0,
    };
    let output: u64 = match count_member(usage, "completion_tokens") {
        Some(n) => n,
        None => 0,
    };
    let total: u64 = match count_member(usage, "total_tokens") {
        Some(n) => n,
        None => if input <= u64::MAX - output {
            input + output
        } else {
            u64::MAX
        },
    };
    Some(Usage { input_tokens: input, output_tokens: output, total_tokens: total })
}

/// The model that the response names as its author, where it names one.
pub fn get_model(response: &Value) -> (r: Option<String>)
    ensures
        match r {
            Some(name) => wire::reported_model(json(*response)) == Some(name@),
            None => wire::reported_model(json(*response)).is_none(),
        },
{
    match text_member(response, "model") {
        Some(name) => Some(String::from_str(name)),
        None => None,
    }
}

} // verus!
