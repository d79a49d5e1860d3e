//! Provider-neutral chat messages rebuilt from persisted history.

use vstd::prelude::*;
use crate::json::{JsonModel, JsonValue};

verus! {

/// One content part of a chat message.
#[derive(Debug)]
pub enum ContentPart {
    /// Plain text.
    Text { text: String },
    /// A tool call made by the model.
    ToolUse { id: String, name: String, input: JsonValue, thought_signature: Option<String> },
    /// The result of a tool call.
    ToolResult { tool_use_id: String, content: String },
}

/// A chat message.
#[derive(Debug)]
pub struct ModelMessage {
    /// `user`, `assistant` or `tool`.
    pub role: String,
    /// Content parts in order.
    pub content: Vec<ContentPart>,
}

/// View of a content part.
pub enum ContentModel {
    Text { text: Seq<char> },
    ToolUse { id: Seq<char>, name: Seq<char>, input: JsonModel, thought_signature: Option<Seq<char>> },
    ToolResult { tool_use_id: Seq<char>, content: Seq<char> },
}

impl View for ContentPart {
    type V = ContentModel;

    open spec fn view(&self) -> ContentModel {
        match self {
            ContentPart::Text { text } => ContentModel::Text { text: text@ },
            ContentPart::ToolUse { id, name, input, thought_signature } => ContentModel::ToolUse {
                id: id@,
                name: name@,
                input: input@,
                thought_signature: match thought_signature {
                    Some(s) => Some(s@),
                    None => None,
                },
            },
            ContentPart::ToolResult { tool_use_id, content } => ContentModel::ToolResult {
                tool_use_id: tool_use_id@,
                content: content@,
            },
        }
    }
}

/// View of a message: role and content views.
pub open spec fn message_view(m: ModelMessage) -> (Seq<char>, Seq<ContentModel>) {
    (m.role@, m.content@.map_values(|c: ContentPart| c@))
}

} // verus!
