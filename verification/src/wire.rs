//! The wire format, written down as mathematics: which JSON document stands
//! for a message, a tool and a whole request, and which message a response
//! document carries. The backend speaks the chat-completion schema that
//! OpenAI made common.

use crate::errors::{InputFault, ShapeFault};
use crate::json::Json;
use crate::message::{ContentView, MessageView, Role, ToolView};
use crate::model::{ModelConfigView, Usage};
use vstd::prelude::*;

verus! {

/// `{"role": role, "content": content}`.
pub open spec fn text_entry(role: Seq<char>, content: Seq<char>) -> Json {
    Json::empty_object().with("role"@, Json::Str(role)).with("content"@, Json::Str(content))
}

/// `{"role": "tool", "tool_call_id": id, "content": output}`.
pub open spec fn tool_result_entry(id: Seq<char>, output: Seq<char>) -> Json {
    Json::empty_object().with("role"@, Json::Str("tool"@)).with(
        "tool_call_id"@,
        Json::Str(id),
    ).with("content"@, Json::Str(output))
}

/// `{"id": id, "type": "function", "function": {"name": name, "arguments": arguments}}`.
pub open spec fn tool_call(id: Seq<char>, name: Seq<char>, arguments: Seq<char>) -> Json {
    Json::empty_object().with("id"@, Json::Str(id)).with("type"@, Json::Str("function"@)).with(
        "function"@,
        Json::empty_object().with("name"@, Json::Str(name)).with(
            "arguments"@,
            Json::Str(arguments),
        ),
    )
}

/// The wire form of a tool request.
pub open spec fn call_of(part: ContentView) -> Json {
    match part {
        ContentView::ToolRequest { id, name, arguments } => tool_call(id, name, arguments),
        _ => Json::Null,
    }
}

/// Whether an assistant message begins with text.
pub open spec fn leads_with_text(content: Seq<ContentView>) -> bool {
    content.len() > 0 && content[0] is Text
}

/// The tool requests of an assistant message: what follows its leading text.
pub open spec fn requests_of(content: Seq<ContentView>) -> Seq<ContentView> {
    if leads_with_text(content) {
        content.skip(1)
    } else {
        content
    }
}

/// An assistant message fits the wire where it is at most one text followed
/// by tool requests only.
pub open spec fn assistant_fits(content: Seq<ContentView>) -> bool {
    forall|i: int| 0 <= i < requests_of(content).len() ==> #[trigger] requests_of(content)[i] is ToolRequest
}

/// The one entry that an assistant message becomes: its role, the leading
/// text as `content` where there is one, and the requests as `tool_calls`
/// where there are any. `None` where the message does not fit.
pub open spec fn assistant_entry(content: Seq<ContentView>) -> Option<Json> {
    if assistant_fits(content) {
        let base = Json::empty_object().with("role"@, Json::Str("assistant"@));
        let spoken = match content.first() {
            ContentView::Text(text) if content.len() > 0 => base.with("content"@, Json::Str(text)),
            _ => base,
        };
        let requests = requests_of(content);
        Some(
            if requests.len() > 0 {
                spoken.with("tool_calls"@, Json::Array(requests.map_values(|part| call_of(part))))
            } else {
                spoken
            },
        )
    } else {
        None
    }
}

/// The entry that one part of a user message becomes; `None` for a tool
/// request, which a user cannot make.
pub open spec fn user_entry(part: ContentView) -> Option<Json> {
    match part {
        ContentView::Text(text) => Some(text_entry("user"@, text)),
        ContentView::ToolResponse { id, output } => Some(tool_result_entry(id, output)),
        ContentView::ToolRequest { .. } => None,
    }
}

/// The entries that a user message becomes, one for each part.
pub open spec fn user_entries(content: Seq<ContentView>) -> Option<Seq<Json>> {
    if forall|i: int| 0 <= i < content.len() ==> user_entry(#[trigger] content[i]) is Some {
        Some(content.map_values(|part| user_entry(part).unwrap()))
    } else {
        None
    }
}

/// The entries that a message becomes.
pub open spec fn entries_of(message: MessageView) -> Option<Seq<Json>> {
    match message.role {
        Role::User => user_entries(message.content),
        Role::Assistant => match assistant_entry(message.content) {
            Some(entry) => Some(seq![entry]),
            None => None,
        },
    }
}

/// The entries of a conversation: those of its messages, in order. `None`
/// where a message does not fit the wire.
pub open spec fn conversation(messages: Seq<MessageView>) -> Option<Seq<Json>>
    decreases messages.len(),
{
    if messages.len() == 0 {
        Some(Seq::empty())
    } else {
        match (conversation(messages.drop_last()), entries_of(messages.last())) {
            (Some(before), Some(entries)) => Some(before + entries),
            _ => None,
        }
    }
}

/// `{"type": "function", "function": {"name": .., "description": .., "parameters": schema}}`.
pub open spec fn tool_entry(tool: ToolView) -> Json {
    Json::empty_object().with("type"@, Json::Str("function"@)).with(
        "function"@,
        Json::empty_object().with("name"@, Json::Str(tool.name)).with(
            "description"@,
            Json::Str(tool.description),
        ).with("parameters"@, tool.input_schema),
    )
}

/// No two tools share a name.
pub open spec fn distinct_names(tools: Seq<ToolView>) -> bool {
    forall|i: int, j: int| 0 <= i < j < tools.len() ==> (#[trigger] tools[i]).name != (#[trigger] tools[j]).name
}

/// The request document for a conversation: the model, the system prompt
/// followed by the conversation under `messages`, the tools under `tools`
/// where there are any, and `max_tokens` where the model sets it. A message
/// that does not fit is reported before a repeated tool name.
pub open spec fn request(
    model: ModelConfigView,
    system: Seq<char>,
    messages: Seq<MessageView>,
    tools: Seq<ToolView>,
) -> Result<Json, InputFault> {
    match conversation(messages) {
        None => Err(InputFault::UnsupportedContent),
        Some(entries) => if !distinct_names(tools) {
            Err(InputFault::DuplicateTool)
        } else {
            let base = Json::empty_object().with("model"@, Json::Str(model.model_name)).with(
                "messages"@,
                Json::Array(seq![text_entry("system"@, system)] + entries),
            );
            let equipped = if tools.len() > 0 {
                base.with("tools"@, Json::Array(tools.map_values(|tool| tool_entry(tool))))
            } else {
                base
            };
            Ok(
                match model.max_tokens {
                    Some(limit) => equipped.with("max_tokens"@, Json::Number(Some(limit as int))),
                    None => equipped,
                },
            )
        },
    }
}

/// The tool request that a `tool_calls` element carries; `None` where its
/// id, its function name or its arguments are not strings.
pub open spec fn decoded_call(call: Json) -> Option<ContentView> {
    match (call.text_member("id"@), call.member("function"@)) {
        (Some(id), Some(function)) => match (
            function.text_member("name"@),
            function.text_member("arguments"@),
        ) {
            (Some(name), Some(arguments)) => Some(ContentView::ToolRequest { id, name, arguments }),
            _ => None,
        },
        _ => None,
    }
}

/// The elements of the `tool_calls` array of a wire message; none where the
/// member is absent or no array.
pub open spec fn calls_in(wire: Json) -> Seq<Json> {
    match wire.member("tool_calls"@) {
        Some(Json::Array(calls)) => calls,
        _ => Seq::empty(),
    }
}

/// The text part of a wire message: its `content` where that is a string.
pub open spec fn spoken_in(wire: Json) -> Seq<ContentView> {
    match wire.text_member("content"@) {
        Some(text) => seq![ContentView::Text(text)],
        None => Seq::empty(),
    }
}

/// The assistant message that a wire message carries: its text first, then
/// its tool requests in order.
pub open spec fn decoded_message(wire: Json) -> Result<MessageView, ShapeFault> {
    let calls = calls_in(wire);
    if forall|i: int| 0 <= i < calls.len() ==> decoded_call(#[trigger] calls[i]) is Some {
        Ok(
            MessageView {
                role: Role::Assistant,
                content: spoken_in(wire) + calls.map_values(|call| decoded_call(call).unwrap()),
            },
        )
    } else {
        Err(ShapeFault::MalformedToolCall)
    }
}

/// The wire message of a response: the `message` object of the first
/// element of `choices`.
pub open spec fn carried(response: Json) -> Option<Json> {
    match response.member("choices"@) {
        Some(Json::Array(choices)) => if choices.len() > 0 {
            match choices[0].member("message"@) {
                Some(wire) => if wire is Object {
                    Some(wire)
                } else {
                    None
                },
                None => None,
            }
        } else {
            None
        },
        _ => None,
    }
}

/// The message that a response carries.
pub open spec fn response_message(response: Json) -> Result<MessageView, ShapeFault> {
    match carried(response) {
        Some(wire) => decoded_message(wire),
        None => Err(ShapeFault::MissingMessage),
    }
}

/// A token count of a usage object: the member where it is a non-negative
/// integer, zero otherwise.
pub open spec fn tokens(usage: Json, key: Seq<char>) -> u64 {
    match usage.member(key) {
        Some(field) => match field.count() {
            Some(n) => n as u64,
            None => 0,
        },
        None => 0,
    }
}

/// Whether a usage object states the count `key`.
pub open spec fn states(usage: Json, key: Seq<char>) -> bool {
    match usage.member(key) {
        Some(field) => field.count() is Some,
        None => false,
    }
}

/// The token accounting of a response: the counts of its `usage` object,
/// the total being the sum of the two others, held to the range of the
/// type, where it is not stated. `None` where `usage` is absent or no
/// object.
pub open spec fn response_usage(response: Json) -> Option<Usage> {
    match response.member("usage"@) {
        Some(usage) => if usage is Object {
            let input = tokens(usage, "prompt_tokens"@);
            let output = tokens(usage, "completion_tokens"@);
            Some(
                Usage {
                    input_tokens: input,
                    output_tokens: output,
                    total_tokens: if states(usage, "total_tokens"@) {
                        tokens(usage, "total_tokens"@)
                    } else if input + output <= u64::MAX {
                        (input + output) as u64
                    } else {
                        u64::MAX
                    },
                },
            )
        } else {
            None
        },
        None => None,
    }
}

/// The model that a response names as its author.
pub open spec fn reported_model(response: Json) -> Option<Seq<char>> {
    response.text_member("model"@)
}

} // verus!
