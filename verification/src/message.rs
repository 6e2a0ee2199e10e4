//! The conversation as the runtime hands it over: messages and tools,
//! independent of any backend.

use crate::json::{json, Json};
use serde_json::Value;
use vstd::prelude::*;

verus! {

/// Who speaks in a message.
#[derive(Debug, Clone, Copy, PartialEq, Eq, Structural)]
pub enum Role {
    User,
    Assistant,
}

/// One part of a message.
#[derive(Debug, Clone, PartialEq, Eq)]
pub enum MessageContent {
    /// Plain text.
    Text(String),
    /// The assistant asks for a tool to be called. `arguments` holds the
    /// arguments as JSON text, which the adapter carries and never reads.
    ToolRequest { id: String, name: String, arguments: String },
    /// What a tool call gave, handed back to the assistant.
    ToolResponse { id: String, output: String },
}

/// The mathematical reading of a [`MessageContent`].
pub enum ContentView {
    Text(Seq<char>),
    ToolRequest { id: Seq<char>, name: Seq<char>, arguments: Seq<char> },
    ToolResponse { id: Seq<char>, output: Seq<char> },
}

impl View for MessageContent {
    type V = ContentView;

    open spec fn view(&self) -> ContentView {
        match self {
            MessageContent::Text(text) => ContentView::Text(text@),
            MessageContent::ToolRequest { id, name, arguments } => ContentView::ToolRequest {
                id: id@,
                name: name@,
                arguments: arguments@,
            },
            MessageContent::ToolResponse { id, output } => ContentView::ToolResponse {
                id: id@,
                output: output@,
            },
        }
    }
}

/// The readings of a sequence of parts.
pub open spec fn content_views(parts: Seq<MessageContent>) -> Seq<ContentView> {
    parts.map_values(|part: MessageContent| part@)
}

/// One turn of a conversation.
#[derive(Debug, Clone, PartialEq, Eq)]
pub struct Message {
    pub role: Role,
    pub content: Vec<MessageContent>,
}

/// The mathematical reading of a [`Message`].
pub struct MessageView {
    pub role: Role,
    pub content: Seq<ContentView>,
}

impl View for Message {
    type V = MessageView;

    open spec fn view(&self) -> MessageView {
        MessageView { role: self.role, content: content_views(self.content@) }
    }
}

/// The readings of a sequence of messages.
pub open spec fn message_views(messages: Seq<Message>) -> Seq<MessageView> {
    messages.map_values(|message: Message| message@)
}

/// A capability that the model may ask to be called. The schema is handed to
/// the backend as it stands.
#[derive(Debug, Clone, PartialEq, Eq)]
pub struct Tool {
    pub name: String,
    pub description: String,
    pub input_schema: Value,
}

/// The mathematical reading of a [`Tool`].
pub struct ToolView {
    pub name: Seq<char>,
    pub description: Seq<char>,
    pub input_schema: Json,
}

impl View for Tool {
    type V = ToolView;

    open spec fn view(&self) -> ToolView {
        ToolView {
            name: self.name@,
            description: self.description@,
            input_schema: json(self.input_schema),
        }
    }
}

/// The readings of a sequence of tools.
pub open spec fn tool_views(tools: Seq<Tool>) -> Seq<ToolView> {
    tools.map_values(|tool: Tool| tool@)
}

} // verus!
