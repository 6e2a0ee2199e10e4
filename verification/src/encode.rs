//! From a conversation to the request document.

use crate::errors::{InputFault, ProviderError};
use crate::json::{array, insert, json, json_seq, number, object, string, Json};
use crate::message::{content_views, message_views, tool_views, Message, MessageContent,
    MessageView, Role, Tool};
use crate::model::ModelConfig;
use crate::wire;
use serde_json::Value;
use vstd::prelude::*;

verus! {

fn text_entry(role: &str, content: &str) -> (r: Value)
    ensures
        json(r) == wire::text_entry(role@, content@),
{
    let mut entry = object();
    insert(&mut entry, "role", string(role));
    insert(&mut entry, "content", string(content));
    entry
}

fn tool_result_entry(id: &str, output: &str) -> (r: Value)
    ensures
        json(r) == wire::tool_result_entry(id@, output@),
{
    let mut entry = object();
    insert(&mut entry, "role", string("tool"));
    insert(&mut entry, "tool_call_id", string(id));
    insert(&mut entry, "content", string(output));
    entry
}

fn tool_call(id: &str, name: &str, arguments: &str) -> (r: Value)
    ensures
        json(r) == wire::tool_call(id@, name@, arguments@),
{
    let mut function = object();
    insert(&mut function, "name", string(name));
    insert(&mut function, "arguments", string(arguments));
    let mut call = object();
    insert(&mut call, "id", string(id));
    insert(&mut call, "type", string("function"));
    insert(&mut call, "function", function);
    call
}

fn tool_entry(tool: &Tool) -> (r: Value)
    ensures
        json(r) == wire::tool_entry(tool@),
{
    let mut function = object();
    insert(&mut function, "name", string(tool.name.as_str()));
    insert(&mut function, "description", string(tool.description.as_str()));
    insert(&mut function, "parameters", tool.input_schema.clone());
    let mut entry = object();
    insert(&mut entry, "type", string("function"));
    insert(&mut entry, "function", function);
    entry
}

/// The one wire entry of an assistant message, or `None` where the message
/// holds more than a leading text and tool requests.
pub fn assistant_entry(content: &Vec<MessageContent>) -> (r: Option<Value>)
    ensures
        match wire::assistant_entry(content_views(content@)) {
            Some(entry) => r matches Some(v) && json(v) == entry,
            None => r is None,
        },
{
    let ghost parts = content_views(content@);
    let mut entry = object();
    insert(&mut entry, "role", string("assistant"));
    let mut start: usize = 0;
    if content.len() > 0 {
        match &content[0] {
            MessageContent::Text(text) => {
                insert(&mut entry, "content", string(text.as_str()));
                start = 1;
            },
            _ => {},
        }
    }
    let ghost spoken = json(entry);
    let ghost requests = wire::requests_of(parts);
    assert(requests == parts.skip(start as int));
    let mut calls: Vec<Value> = Vec::new();
    let mut i: usize = start;
    while i < content.len()
        invariant
            start <= i <= content.len(),
            parts == content_views(content@),
            requests == wire::requests_of(parts),
            requests == parts.skip(start as int),
            json_seq(calls@) == requests.take(i - start).map_values(|part| wire::call_of(part)),
            forall|k: int| 0 <= k < i - start ==> #[trigger] requests[k] is ToolRequest,
        decreases content.len() - i,
    {
        match &content[i] {
            MessageContent::ToolRequest { id, name, arguments } => {
                let call = tool_call(id.as_str(), name.as_str(), arguments.as_str());
                let ghost prior = json_seq(calls@);
                calls.push(call);
                proof {
                    assert(parts[i as int] == content@[i as int]@);
                    assert(requests[i - start] == parts[i as int]);
                    assert(json(call) == wire::call_of(requests[i - start]));
                    assert(json_seq(calls@) =~= prior.push(json(call)));
                    assert(json_seq(calls@) =~= requests.take(i + 1 - start).map_values(
                        |part| wire::call_of(part),
                    ));
                }
            },
            _ => {
                proof {
                    assert(parts[i as int] == content@[i as int]@);
                    assert(requests[i - start] == parts[i as int]);
                    assert(!(requests[i - start] is ToolRequest));
                }
                return None;
            },
        }
        i = i + 1;
    }
    proof {
        assert(requests.take(i - start) == requests);
        assert(wire::assistant_fits(parts));
    }
    if calls.len() > 0 {
        insert(&mut entry, "tool_calls", array(calls));
    }
    Some(entry)
}

/// Appends the wire entries of a user message to `out`. Answers `false`,
/// with `out` left in no particular state, where a part is a tool request.
pub fn push_user_entries(content: &Vec<MessageContent>, out: &mut Vec<Value>) -> (fits: bool)
    ensures
        match wire::user_entries(content_views(content@)) {
            Some(entries) => fits && json_seq(final(out)@) == json_seq(old(out)@) + entries,
            None => !fits,
        },
{
    let ghost parts = content_views(content@);
    let ghost before = json_seq(out@);
    let mut i: usize = 0;
    while i < content.len()
        invariant
            i <= content.len(),
            parts == content_views(content@),
            forall|k: int| 0 <= k < i ==> wire::user_entry(#[trigger] parts[k]) is Some,
            json_seq(out@) == before + parts.take(i as int).map_values(
                |part| wire::user_entry(part).unwrap(),
            ),
        decreases content.len() - i,
    {
        let entry = match &content[i] {
            MessageContent::Text(text) => text_entry("user", text.as_str()),
            MessageContent::ToolResponse { id, output } => tool_result_entry(
                id.as_str(),
                output.as_str(),
            ),
            MessageContent::ToolRequest { .. } => {
                proof {
                    assert(parts[i as int] == content@[i as int]@);
                    assert(wire::user_entry(parts[i as int]) is None);
                }
                return false;
            },
        };
        let ghost prior = json_seq(out@);
        out.push(entry);
        proof {
            assert(parts[i as int] == content@[i as int]@);
            assert(json(entry) == wire::user_entry(parts[i as int]).unwrap());
            assert(json_seq(out@) =~= prior.push(json(entry)));
            assert(json_seq(out@) =~= before + parts.take(i + 1).map_values(
                |part| wire::user_entry(part).unwrap(),
            ));
        }
        i = i + 1;
    }
    proof {
        assert(parts.take(i as int) == parts);
    }
    true
}

/// Whether no two tools share a name.
pub fn names_distinct(tools: &[Tool]) -> (r: bool)
    ensures
        r == wire::distinct_names(tool_views(tools@)),
{
    let ghost views = tool_views(tools@);
    let mut j: usize = 0;
    while j < tools.len()
        invariant
            j <= tools.len(),
            views == tool_views(tools@),
            forall|a: int, b: int| 0 <= a < b < j ==> (#[trigger] views[a]).name != (#[trigger] views[b]).name,
        decreases tools.len() - j,
    {
        let mut i: usize = 0;
        while i < j
            invariant
                i <= j < tools.len(),
                views == tool_views(tools@),
                forall|a: int| 0 <= a < i ==> (#[trigger] views[a]).name != views[j as int].name,
            decreases j - i,
        {
            if tools[i].name == tools[j].name {
                assert(views[i as int].name == views[j as int].name);
                return false;
            }
            i = i + 1;
        }
        j = j + 1;
    }
    true
}

/// Builds the request document for a conversation.
///
/// Fails, before anything is sent, where a message holds content that its
/// role cannot carry on the wire, and otherwise where two tools share a
/// name. The document can be sent any number of times.
pub fn create_request(
    model: &ModelConfig,
    system: &str,
    messages: &[Message],
    tools: &[Tool],
) -> (r: Result<Value, ProviderError>)
    ensures
        match wire::request(model@, system@, message_views(messages@), tool_views(tools@)) {
            Ok(document) => r matches Ok(payload) && json(payload) == document,
            Err(fault) => r matches Err(ProviderError::MalformedInput { fault: found }) && found
                == fault,
        },
{
    let ghost views = message_views(messages@);
    let ghost opening = wire::text_entry("system"@, system@);
    let mut entries: Vec<Value> = Vec::new();
    entries.push(text_entry("system", system));
    let ghost mut sent: Seq<Json> = Seq::empty();
    assert(json_seq(entries@) =~= seq![opening] + sent);
    let mut i: usize = 0;
    while i < messages.len()
        invariant
            i <= messages.len(),
            views == message_views(messages@),
            wire::conversation(views.take(i as int)) == Some(sent),
            json_seq(entries@) == seq![opening] + sent,
        decreases messages.len() - i,
    {
        let message = &messages[i];
        proof {
            assert(views.take(i + 1).drop_last() == views.take(i as int));
            assert(views.take(i + 1).last() == message@);
        }
        let ghost before = json_seq(entries@);
        match message.role {
            Role::User => {
                if !push_user_entries(&message.content, &mut entries) {
                    proof {
                        lemma_unfit_stays_unfit(views, i + 1);
                    }
                    return Err(
                        ProviderError::MalformedInput { fault: InputFault::UnsupportedContent },
                    );
                }
            },
            Role::Assistant => match assistant_entry(&message.content) {
                Some(entry) => {
                    entries.push(entry);
                    assert(json_seq(entries@) =~= before + seq![json(entry)]);
                },
                None => {
                    proof {
                        lemma_unfit_stays_unfit(views, i + 1);
                    }
                    return Err(
                        ProviderError::MalformedInput { fault: InputFault::UnsupportedContent },
                    );
                },
            },
        }
        proof {
            let added = wire::entries_of(message@).unwrap();
            assert(json_seq(entries@) =~= seq![opening] + (sent + added));
            sent = sent + added;
        }
        i = i + 1;
    }
    assert(views.take(i as int) == views);
    if !names_distinct(tools) {
        return Err(ProviderError::MalformedInput { fault: InputFault::DuplicateTool });
    }
    let mut payload = object();
    insert(&mut payload, "model", string(model.model_name.as_str()));
    insert(&mut payload, "messages", array(entries));
    if tools.len() > 0 {
        let ghost offered = tool_views(tools@);
        let mut described: Vec<Value> = Vec::new();
        let mut k: usize = 0;
        while k < tools.len()
            invariant
                k <= tools.len(),
                offered == tool_views(tools@),
                json_seq(described@) == offered.take(k as int).map_values(
                    |tool| wire::tool_entry(tool),
                ),
            decreases tools.len() - k,
        {
            let ghost prior = json_seq(described@);
            let entry = tool_entry(&tools[k]);
            described.push(entry);
            assert(offered[k as int] == tools@[k as int]@);
            assert(json_seq(described@) =~= prior.push(json(entry)));
            assert(json_seq(described@) =~= offered.take(k + 1).map_values(
                |tool| wire::tool_entry(tool),
            ));
            k = k + 1;
        }
        assert(offered.take(k as int) == offered);
        insert(&mut payload, "tools", array(described));
    }
    match model.max_tokens {
        Some(limit) => {
            insert(&mut payload, "max_tokens", number(limit as u64));
        },
        None => {},
    }
    Ok(payload)
}

/// A conversation with a start that does not fit the wire does not fit.
proof fn lemma_unfit_stays_unfit(messages: Seq<MessageView>, n: int)
    requires
        0 <= n <= messages.len(),
        wire::conversation(messages.take(n)) is None,
    ensures
        wire::conversation(messages) is None,
    decreases messages.len() - n,
{
    if n < messages.len() {
        assert(messages.take(n + 1).drop_last() == messages.take(n));
        lemma_unfit_stays_unfit(messages, n + 1);
    } else {
        assert(messages.take(n) == messages);
    }
}

} // verus!
