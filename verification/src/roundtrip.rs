//! Decoding undoes encoding: a response that carries the wire entry of an
//! assistant message is read back as that message.

use crate::errors::ShapeFault;
use crate::json::Json;
use crate::message::{ContentView, MessageView, Role};
use crate::wire::{assistant_entry, assistant_fits, call_of, calls_in, carried, conversation,
    decoded_call, decoded_message, leads_with_text, requests_of, response_message, spoken_in,
    tool_call};
use vstd::prelude::*;

verus! {

/// The smallest response that carries the wire message `entry`:
/// `{"choices": [{"message": entry}]}`.
pub open spec fn response_carrying(entry: Json) -> Json {
    Json::empty_object().with(
        "choices"@,
        Json::Array(seq![Json::empty_object().with("message"@, entry)]),
    )
}

/// The member names of the wire format are pairwise different.
proof fn lemma_member_names_differ()
    ensures
        "role"@ != "content"@,
        "role"@ != "tool_calls"@,
        "content"@ != "tool_calls"@,
        "id"@ != "type"@,
        "id"@ != "function"@,
        "type"@ != "function"@,
        "name"@ != "arguments"@,
{
    reveal_strlit("role");
    reveal_strlit("content");
    reveal_strlit("tool_calls");
    reveal_strlit("id");
    reveal_strlit("type");
    reveal_strlit("function");
    reveal_strlit("name");
    reveal_strlit("arguments");
    assert("role"@.len() == 4);
    assert("content"@.len() == 7);
    assert("tool_calls"@.len() == 10);
    assert("id"@.len() == 2);
    assert("type"@.len() == 4);
    assert("function"@.len() == 8);
    assert("name"@.len() == 4);
    assert("arguments"@.len() == 9);
}

/// A tool call is read back as the request that it was written from.
pub proof fn lemma_call_round_trip(id: Seq<char>, name: Seq<char>, arguments: Seq<char>)
    ensures
        decoded_call(tool_call(id, name, arguments)) == Some(
            ContentView::ToolRequest { id, name, arguments },
        ),
{
    lemma_member_names_differ();
}

/// For every assistant message that fits the wire, a response that carries
/// the message's wire entry decodes to that very message: same role, same
/// parts in the same order.
pub proof fn lemma_decode_inverts_encode(message: MessageView)
    requires
        message.role == Role::Assistant,
        assistant_fits(message.content),
    ensures
        assistant_entry(message.content) is Some,
        response_message(response_carrying(assistant_entry(message.content).unwrap())) == Ok::<
            MessageView,
            ShapeFault,
        >(message),
{
    lemma_member_names_differ();
    let content = message.content;
    let entry = assistant_entry(content).unwrap();
    let requests = requests_of(content);
    assert(entry is Object);
    assert(carried(response_carrying(entry)) == Some(entry));
    let calls = calls_in(entry);
    assert(calls =~= requests.map_values(|part| call_of(part)));
    assert forall|i: int| 0 <= i < calls.len() implies decoded_call(#[trigger] calls[i]) == Some(
        requests[i],
    ) by {
        assert(requests[i] is ToolRequest);
        match requests[i] {
            ContentView::ToolRequest { id, name, arguments } => {
                lemma_call_round_trip(id, name, arguments);
            },
            _ => {},
        }
    }
    let read = calls.map_values(|call| decoded_call(call).unwrap());
    assert(read =~= requests);
    if leads_with_text(content) {
        match content[0] {
            ContentView::Text(text) => {
                assert(spoken_in(entry) =~= seq![ContentView::Text(text)]);
            },
            _ => {},
        }
        assert(spoken_in(entry) + read =~= content);
    } else {
        assert(spoken_in(entry) =~= Seq::empty());
        assert(spoken_in(entry) + read =~= content);
    }
    assert(decoded_message(entry) == Ok::<MessageView, ShapeFault>(message));
}

/// The entries of a conversation that can be encoded hold, for each of its
/// assistant messages, the entry of that message.
pub proof fn lemma_conversation_holds_entry(messages: Seq<MessageView>, at: int)
    requires
        conversation(messages) is Some,
        0 <= at < messages.len(),
        messages[at].role == Role::Assistant,
    ensures
        assistant_entry(messages[at].content) is Some,
        conversation(messages).unwrap().contains(assistant_entry(messages[at].content).unwrap()),
    decreases messages.len(),
{
    let before = conversation(messages.drop_last()).unwrap();
    let all = conversation(messages).unwrap();
    if at == messages.len() - 1 {
        let entry = assistant_entry(messages[at].content).unwrap();
        assert(all == before + seq![entry]);
        assert(all[before.len() as int] == entry);
    } else {
        lemma_conversation_holds_entry(messages.drop_last(), at);
        let entry = assistant_entry(messages[at].content).unwrap();
        let k = choose|k: int| 0 <= k < before.len() && before[k] == entry;
        assert(all[k] == entry);
    }
}

/// Encoding, then decoding: each assistant message of a conversation that
/// can be encoded is found among the encoded entries, and a response that
/// carries its entry decodes to that message.
pub proof fn lemma_encoded_message_decodes(messages: Seq<MessageView>, at: int)
    requires
        conversation(messages) is Some,
        0 <= at < messages.len(),
        messages[at].role == Role::Assistant,
    ensures
        assistant_entry(messages[at].content) is Some,
        conversation(messages).unwrap().contains(assistant_entry(messages[at].content).unwrap()),
        response_message(response_carrying(assistant_entry(messages[at].content).unwrap())) == Ok::<
            MessageView,
            ShapeFault,
        >(messages[at]),
{
    lemma_conversation_holds_entry(messages, at);
    lemma_decode_inverts_encode(messages[at]);
}

} // verus!
