//! Session route payloads: creation, patching, listing and message append.

use vstd::prelude::*;
use crate::dto::{MessageRow, MessageWithParts, PartRow, SessionRow};
use crate::ids::{MessageId, ProjectId, SessionId, WorkspaceId};
use crate::json::JsonValue;
use crate::server::workspace::PatchField;
use crate::session::types::SessionHandle;

verus! {

/// A value after a patch: kept when missing, cleared when `null`, replaced
/// when given.
pub open spec fn patched<T>(cur: Option<T>, p: PatchField<T>) -> Option<T> {
    match p {
        PatchField::Missing => cur,
        PatchField::Null => None,
        PatchField::Value(v) => Some(v),
    }
}

/// Apply one patch field.
pub fn apply_patch<T>(slot: &mut Option<T>, p: PatchField<T>)
    ensures
        *final(slot) == patched(*old(slot), p),
{
    match p {
        PatchField::Missing => {},
        PatchField::Null => {
            *slot = None;
        },
        PatchField::Value(v) => {
            *slot = Some(v);
        },
    }
}

/// Wire shape of a session.
#[derive(Debug)]
pub struct SessionDto {
    pub id: SessionId,
    pub project_id: ProjectId,
    pub workspace_id: Option<WorkspaceId>,
    pub parent_id: Option<SessionId>,
    pub slug: String,
    pub directory: String,
    pub title: String,
    pub version: String,
    pub share_url: Option<String>,
    pub summary_additions: Option<i64>,
    pub summary_deletions: Option<i64>,
    pub summary_files: Option<i64>,
    pub summary_diffs: Option<JsonValue>,
    pub revert: Option<JsonValue>,
    pub permission: Option<JsonValue>,
    pub time_created: i64,
    pub time_updated: i64,
    pub time_compacting: Option<i64>,
    pub time_archived: Option<i64>,
}

impl From<SessionRow> for SessionDto {
    fn from(row: SessionRow) -> (r: Self) {
        SessionDto {
            id: row.id,
            project_id: row.project_id,
            workspace_id: row.workspace_id,
            parent_id: row.parent_id,
            slug: row.slug,
            directory: row.directory,
            title: row.title,
            version: row.version,
            share_url: row.share_url,
            summary_additions: row.summary_additions,
            summary_deletions: row.summary_deletions,
            summary_files: row.summary_files,
            summary_diffs: row.summary_diffs,
            revert: row.revert,
            permission: row.permission,
            time_created: row.time_created,
            time_updated: row.time_updated,
            time_compacting: row.time_compacting,
            time_archived: row.time_archived,
        }
    }
}

impl vstd::std_specs::convert::FromSpecImpl<SessionRow> for SessionDto {
    open spec fn obeys_from_spec() -> bool {
        true
    }

    open spec fn from_spec(row: SessionRow) -> Self {
        SessionDto {
            id: row.id,
            project_id: row.project_id,
            workspace_id: row.workspace_id,
            parent_id: row.parent_id,
            slug: row.slug,
            directory: row.directory,
            title: row.title,
            version: row.version,
            share_url: row.share_url,
            summary_additions: row.summary_additions,
            summary_deletions: row.summary_deletions,
            summary_files: row.summary_files,
            summary_diffs: row.summary_diffs,
            revert: row.revert,
            permission: row.permission,
            time_created: row.time_created,
            time_updated: row.time_updated,
            time_compacting: row.time_compacting,
            time_archived: row.time_archived,
        }
    }
}

/// Payload of a session creation.
#[derive(Debug)]
pub struct SessionCreateDto {
    pub id: SessionId,
    pub workspace_id: Option<WorkspaceId>,
    pub parent_id: Option<SessionId>,
    pub slug: String,
    pub directory: String,
    pub title: String,
    pub version: String,
    pub share_url: Option<String>,
    pub summary_additions: Option<i64>,
    pub summary_deletions: Option<i64>,
    pub summary_files: Option<i64>,
    pub summary_diffs: Option<JsonValue>,
    pub revert: Option<JsonValue>,
    pub permission: Option<JsonValue>,
    pub time_created: i64,
    pub time_updated: i64,
    pub time_compacting: Option<i64>,
    pub time_archived: Option<i64>,
}

impl SessionCreateDto {
    /// The row to store under project `project_id`: every field as given.
    pub fn into_row(self, project_id: ProjectId) -> (r: SessionRow)
        ensures
            r == (SessionRow {
                id: self.id,
                project_id,
                workspace_id: self.workspace_id,
                parent_id: self.parent_id,
                slug: self.slug,
                directory: self.directory,
                title: self.title,
                version: self.version,
                share_url: self.share_url,
                summary_additions: self.summary_additions,
                summary_deletions: self.summary_deletions,
                summary_files: self.summary_files,
                summary_diffs: self.summary_diffs,
                revert: self.revert,
                permission: self.permission,
                time_created: self.time_created,
                time_updated: self.time_updated,
                time_compacting: self.time_compacting,
                time_archived: self.time_archived,
            }),
    {
        SessionRow {
            id: self.id,
            project_id,
            workspace_id: self.workspace_id,
            parent_id: self.parent_id,
            slug: self.slug,
            directory: self.directory,
            title: self.title,
            version: self.version,
            share_url: self.share_url,
            summary_additions: self.summary_additions,
            summary_deletions: self.summary_deletions,
            summary_files: self.summary_files,
            summary_diffs: self.summary_diffs,
            revert: self.revert,
            permission: self.permission,
            time_created: self.time_created,
            time_updated: self.time_updated,
            time_compacting: self.time_compacting,
            time_archived: self.time_archived,
        }
    }
}

/// Payload of a session patch.
#[derive(Debug)]
pub struct SessionPatchDto {
    pub workspace_id: PatchField<WorkspaceId>,
    pub title: Option<String>,
    pub time_updated: Option<i64>,
    pub share_url: PatchField<String>,
    pub summary_additions: PatchField<i64>,
    pub summary_deletions: PatchField<i64>,
    pub summary_files: PatchField<i64>,
    pub summary_diffs: PatchField<JsonValue>,
    pub revert: PatchField<JsonValue>,
    pub permission: PatchField<JsonValue>,
    pub time_compacting: PatchField<i64>,
    pub time_archived: PatchField<i64>,
}

impl SessionPatchDto {
    /// Apply the patch: a given title or update time replaces the current
    /// one; each patch field is kept when missing, cleared when `null`,
    /// replaced when given; every other field is unchanged.
    pub fn apply(self, row: &mut SessionRow)
        ensures
            *final(row) == (SessionRow {
                workspace_id: patched(old(row).workspace_id, self.workspace_id),
                title: match self.title {
                    Some(t) => t,
                    None => old(row).title,
                },
                time_updated: match self.time_updated {
                    Some(t) => t,
                    None => old(row).time_updated,
                },
                share_url: patched(old(row).share_url, self.share_url),
                summary_additions: patched(old(row).summary_additions, self.summary_additions),
                summary_deletions: patched(old(row).summary_deletions, self.summary_deletions),
                summary_files: patched(old(row).summary_files, self.summary_files),
                summary_diffs: patched(old(row).summary_diffs, self.summary_diffs),
                revert: patched(old(row).revert, self.revert),
                permission: patched(old(row).permission, self.permission),
                time_compacting: patched(old(row).time_compacting, self.time_compacting),
                time_archived: patched(old(row).time_archived, self.time_archived),
                ..*old(row)
            }),
    {
        apply_patch(&mut row.workspace_id, self.workspace_id);
        if let Some(t) = self.title {
            row.title = t;
        }
        if let Some(t) = self.time_updated {
            row.time_updated = t;
        }
        apply_patch(&mut row.share_url, self.share_url);
        apply_patch(&mut row.summary_additions, self.summary_additions);
        apply_patch(&mut row.summary_deletions, self.summary_deletions);
        apply_patch(&mut row.summary_files, self.summary_files);
        apply_patch(&mut row.summary_diffs, self.summary_diffs);
        apply_patch(&mut row.revert, self.revert);
        apply_patch(&mut row.permission, self.permission);
        apply_patch(&mut row.time_compacting, self.time_compacting);
        apply_patch(&mut row.time_archived, self.time_archived);
    }
}

/// Wire shape of a prompt handle.
#[derive(Debug)]
pub struct SessionHandleDto {
    pub session_id: SessionId,
    pub assistant_message_id: Option<MessageId>,
    pub resolved_model: Option<String>,
}

impl From<SessionHandle> for SessionHandleDto {
    fn from(handle: SessionHandle) -> (r: Self) {
        SessionHandleDto {
            session_id: handle.session_id,
            assistant_message_id: handle.assistant_message_id,
            resolved_model: handle.resolved_model,
        }
    }
}

impl vstd::std_specs::convert::FromSpecImpl<SessionHandle> for SessionHandleDto {
    open spec fn obeys_from_spec() -> bool {
        true
    }

    open spec fn from_spec(handle: SessionHandle) -> Self {
        SessionHandleDto {
            session_id: handle.session_id,
            assistant_message_id: handle.assistant_message_id,
            resolved_model: handle.resolved_model,
        }
    }
}

/// The rows an appended message is stored as: the message moved to
/// session `sid`, and each part moved to that session and message, in
/// order and otherwise unchanged.
pub fn bind_message_parts(payload: MessageWithParts, sid: SessionId) -> (r: (MessageRow, Vec<PartRow>))
    ensures
        r.0 == (MessageRow { session_id: sid, ..payload.info }),
        r.1@.len() == payload.parts@.len(),
        forall|i: int|
            0 <= i < r.1@.len() ==> #[trigger] r.1@[i] == (PartRow {
                session_id: sid,
                message_id: payload.info.id,
                ..payload.parts@[i]
            }),
{
    let mut msg = payload.info;
    msg.session_id = sid;
    let mid = msg.id;
    let mut out: Vec<PartRow> = Vec::new();
    let mut rest = payload.parts;
    let ghost orig = rest@;
    let n = rest.len();
    assert(orig.len() == n);
    let mut i: usize = 0;
    while rest.len() > 0
        invariant
            i + rest@.len() == orig.len(),
            orig.len() <= usize::MAX,
            rest@ == orig.skip(i as int),
            mid == payload.info.id,
            out@.len() == i,
            forall|k: int|
                0 <= k < i ==> #[trigger] out@[k] == (PartRow {
                    session_id: sid,
                    message_id: mid,
                    ..orig[k]
                }),
        decreases rest.len(),
    {
        let ghost prev = rest@;
        let mut p = rest.remove(0);
        assert(prev[0] == orig[i as int]);
        assert(rest@ =~= orig.skip(i + 1));
        p.session_id = sid;
        p.message_id = mid;
        out.push(p);
        i = i + 1;
    }
    (msg, out)
}

} // verus!
