//! Stored rows of sessions, messages and message parts.

use vstd::prelude::*;
use crate::ids::{MessageId, PartId, ProjectId, SessionId, WorkspaceId};
use crate::json::JsonValue;

verus! {

/// A stored session.
#[derive(Debug)]
pub struct SessionRow {
    pub id: SessionId,
    pub project_id: ProjectId,
    pub workspace_id: Option<WorkspaceId>,
    pub parent_id: Option<SessionId>,
    pub slug: String,
    pub directory: String,
    pub title: String,
    pub version: String,
    pub share_url: Option<String>,
    pub summary_additions: Option<i64>,
    pub summary_deletions: Option<i64>,
    pub summary_files: Option<i64>,
    pub summary_diffs: Option<JsonValue>,
    pub revert: Option<JsonValue>,
    pub permission: Option<JsonValue>,
    pub time_created: i64,
    pub time_updated: i64,
    pub time_compacting: Option<i64>,
    pub time_archived: Option<i64>,
}

/// A stored message.
#[derive(Debug)]
pub struct MessageRow {
    pub id: MessageId,
    pub session_id: SessionId,
    pub time_created: i64,
    pub time_updated: i64,
    pub data: JsonValue,
}

/// A stored message part.
#[derive(Debug)]
pub struct PartRow {
    pub id: PartId,
    pub message_id: MessageId,
    pub session_id: SessionId,
    pub time_created: i64,
    pub time_updated: i64,
    pub data: JsonValue,
}

/// A message with its parts.
#[derive(Debug)]
pub struct MessageWithParts {
    pub info: MessageRow,
    pub parts: Vec<PartRow>,
}

} // verus!
