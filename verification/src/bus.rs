//! Runtime lifecycle events published on the in-process bus.

use vstd::prelude::*;
use crate::ids::{MessageId, PartId, ProjectId, SessionId};
use crate::session::types::{PermissionReplyKind, QuestionInfo, RuntimeToolCallRef};
use crate::json::JsonValue;

verus! {

/// A runtime event.
#[derive(Debug)]
pub enum BusEvent {
    /// Configuration changed.
    ConfigChanged,
    /// A session was created.
    SessionCreated { session_id: SessionId, project_id: ProjectId },
    /// A session changed.
    SessionUpdated { session_id: SessionId },
    /// A session's run completed.
    SessionCompleted { session_id: SessionId },
    /// A session's run was cancelled.
    SessionCancelled { session_id: SessionId },
    /// A session's run failed.
    SessionError { session_id: SessionId, error: String },
    /// A message was added.
    MessageAdded { session_id: SessionId, message_id: MessageId },
    /// A message part was added.
    PartAdded { session_id: SessionId, message_id: MessageId, part_id: PartId },
    /// A tool call started.
    ToolStarted { session_id: SessionId, tool: String, call_id: String },
    /// A tool call finished.
    ToolFinished { session_id: SessionId, tool: String, call_id: String, ok: bool },
    /// Provider token usage of a turn.
    ProviderTokensUsed { session_id: SessionId, provider: String, model: String, input: u64, output: u64 },
    /// A permission was asked.
    PermissionAsked {
        session_id: SessionId,
        request_id: String,
        permission: String,
        patterns: Vec<String>,
        metadata: JsonValue,
        always: Vec<String>,
        tool: Option<RuntimeToolCallRef>,
    },
    /// A permission was answered.
    PermissionReplied { session_id: SessionId, request_id: String, reply: PermissionReplyKind },
    /// Questions were asked.
    QuestionAsked {
        session_id: SessionId,
        request_id: String,
        questions: Vec<QuestionInfo>,
        tool: Option<RuntimeToolCallRef>,
    },
    /// Questions were answered.
    QuestionReplied { session_id: SessionId, request_id: String, answers: Vec<Vec<String>> },
    /// Questions were rejected.
    QuestionRejected { session_id: SessionId, request_id: String },
}

} // verus!
