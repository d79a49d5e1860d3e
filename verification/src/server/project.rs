//! Project foundation records: what the repository probe reports of a
//! project's worktree, read from the outputs of git commands.

use vstd::prelude::*;
use crate::ids::ProjectId;
use crate::text::{chars_of, split, split_chars, string_of, trim, trimmed};

verus! {

/// State of the project's worktree.
#[derive(Debug)]
pub struct WorktreeState {
    pub branch: Option<String>,
    pub head_oid: Option<String>,
    pub is_dirty: Option<bool>,
}

/// State of the project's repository.
#[derive(Debug)]
pub struct RepositoryState {
    pub default_branch: Option<String>,
    pub head_oid: Option<String>,
}

/// What a sync compares against.
#[derive(Debug)]
pub struct SyncBasis {
    pub head_oid: Option<String>,
    pub base_oid: Option<String>,
    pub is_dirty: Option<bool>,
}

/// A probed project foundation.
#[derive(Debug)]
pub struct ProjectFoundationRecord {
    pub project_id: ProjectId,
    pub canonical_worktree: Option<String>,
    pub repository_root: Option<String>,
    pub vcs_kind: Option<String>,
    pub worktree_state: WorktreeState,
    pub repository_state: RepositoryState,
    pub sync_basis: Option<SyncBasis>,
}

/// A stored project foundation.
#[derive(Debug)]
pub struct ProjectFoundationRow {
    pub project_id: ProjectId,
    pub canonical_worktree: Option<String>,
    pub repository_root: Option<String>,
    pub vcs_kind: Option<String>,
    pub worktree_state: WorktreeState,
    pub repository_state: RepositoryState,
    pub sync_basis: Option<SyncBasis>,
    pub time_created: i64,
    pub time_updated: i64,
}

/// View of an optional string.
pub open spec fn os(o: Option<String>) -> Option<Seq<char>> {
    match o {
        Some(s) => Some(s@),
        None => None,
    }
}

/// An output kept only when non-empty.
pub open spec fn nonempty(o: Option<Seq<char>>) -> Option<Seq<char>> {
    match o {
        Some(s) => if s.len() > 0 {
            Some(s)
        } else {
            None
        },
        None => None,
    }
}

/// The default branch named by `origin/HEAD`'s short ref: its last `/`
/// segment.
pub open spec fn default_branch_of(origin_head: Option<Seq<char>>) -> Option<Seq<char>> {
    match nonempty(origin_head) {
        Some(s) => Some(split(s, '/').last()),
        None => None,
    }
}

fn keep_nonempty(o: Option<String>) -> (r: Option<String>)
    ensures
        os(r) == nonempty(os(o)),
{
    match o {
        Some(s) => {
            if s.as_str().is_empty() {
                None
            } else {
                Some(s)
            }
        },
        None => None,
    }
}

/// A record for a worktree whose repository is unknown.
pub fn unknown_foundation_record(project_id: ProjectId, canonical_worktree: Option<String>) -> (r: ProjectFoundationRecord)
    ensures
        r.project_id == project_id,
        os(r.canonical_worktree) == os(canonical_worktree),
        r.repository_root is None && r.vcs_kind is None && r.sync_basis is None,
        r.worktree_state.branch is None && r.worktree_state.head_oid is None && r.worktree_state.is_dirty is None,
        r.repository_state.default_branch is None && r.repository_state.head_oid is None,
{
    ProjectFoundationRecord {
        project_id,
        canonical_worktree,
        repository_root: None,
        vcs_kind: None,
        worktree_state: WorktreeState { branch: None, head_oid: None, is_dirty: None },
        repository_state: RepositoryState { default_branch: None, head_oid: None },
        sync_basis: None,
    }
}

/// What a git command reports: its trimmed standard output when it
/// succeeded, `None` when it exited with a failure status (unknown
/// metadata, not an error).
pub fn git_command_output(success: bool, stdout: &str) -> (r: Option<String>)
    ensures
        success ==> os(r) == Some(trimmed(stdout@)),
        !success ==> r is None,
{
    if success {
        Some(trim(stdout))
    } else {
        None
    }
}

/// The repository root reported by `git rev-parse --show-toplevel`
/// (trimmed output, `None` on failure): only a non-empty root counts. The
/// other commands are run only when there is one.
pub fn repository_root_of(output: Option<String>) -> (r: Option<String>)
    ensures
        os(r) == nonempty(os(output)),
{
    keep_nonempty(output)
}

/// The record of a git repository from the trimmed outputs of
/// `branch --show-current`, `rev-parse HEAD`, `status --porcelain` and
/// `symbolic-ref --short refs/remotes/origin/HEAD` (each `None` when the
/// command failed). Empty outputs count as unknown, but an empty status
/// means clean; a sync basis exists when the head or the dirtiness is
/// known.
pub fn git_foundation_record(
    project_id: ProjectId,
    canonical_worktree: Option<String>,
    repository_root: String,
    branch_out: Option<String>,
    head_out: Option<String>,
    status_out: Option<String>,
    origin_head_out: Option<String>,
) -> (r: ProjectFoundationRecord)
    ensures
        r.project_id == project_id,
        os(r.canonical_worktree) == os(canonical_worktree),
        os(r.repository_root) == Some(repository_root@),
        os(r.vcs_kind) == Some("git"@),
        os(r.worktree_state.branch) == nonempty(os(branch_out)),
        os(r.worktree_state.head_oid) == nonempty(os(head_out)),
        r.worktree_state.is_dirty == (match status_out {
            Some(s) => Some(s@.len() > 0),
            None => None,
        }),
        os(r.repository_state.default_branch) == default_branch_of(os(origin_head_out)),
        os(r.repository_state.head_oid) == nonempty(os(head_out)),
        (nonempty(os(head_out)) is Some || status_out is Some) <==> r.sync_basis is Some,
        r.sync_basis matches Some(b) ==> os(b.head_oid) == nonempty(os(head_out)) && b.base_oid is None
            && b.is_dirty == r.worktree_state.is_dirty,
{
    let branch = keep_nonempty(branch_out);
    let head = keep_nonempty(head_out);
    let is_dirty = match &status_out {
        Some(s) => Some(!s.as_str().is_empty()),
        None => None,
    };
    let default_branch = match keep_nonempty(origin_head_out) {
        Some(s) => {
            let pieces = split_chars(&chars_of(s.as_str()), '/');
            proof {
                assert(pieces@.len() > 0) by {
                    let sv = s@;
                    match crate::text::index_of(sv, '/') {
                        None => {},
                        Some(i) => {},
                    }
                }
            }
            Some(string_of(&pieces[pieces.len() - 1]))
        },
        None => None,
    };
    let head2 = match &head {
        Some(h) => Some(h.clone()),
        None => None,
    };
    let head3 = match &head {
        Some(h) => Some(h.clone()),
        None => None,
    };
    let sync_basis = if head.is_some() || is_dirty.is_some() {
        Some(SyncBasis { head_oid: head3, base_oid: None, is_dirty })
    } else {
        None
    };
    ProjectFoundationRecord {
        project_id,
        canonical_worktree,
        repository_root: Some(repository_root),
        vcs_kind: Some(String::from_str("git")),
        worktree_state: WorktreeState { branch, head_oid: head, is_dirty },
        repository_state: RepositoryState { default_branch, head_oid: head2 },
        sync_basis,
    }
}

/// The row stored for a probed record: created at the existing row's
/// creation time when there is one, else now; updated now.
pub fn foundation_row(record: ProjectFoundationRecord, existing_time_created: Option<i64>, now: i64) -> (r: ProjectFoundationRow)
    ensures
        r.project_id == record.project_id,
        r.canonical_worktree == record.canonical_worktree,
        r.repository_root == record.repository_root,
        r.vcs_kind == record.vcs_kind,
        r.worktree_state == record.worktree_state,
        r.repository_state == record.repository_state,
        r.sync_basis == record.sync_basis,
        r.time_created == (match existing_time_created {
            Some(t) => t,
            None => now,
        }),
        r.time_updated == now,
{
    let time_created = match existing_time_created {
        Some(t) => t,
        None => now,
    };
    ProjectFoundationRow {
        project_id: record.project_id,
        canonical_worktree: record.canonical_worktree,
        repository_root: record.repository_root,
        vcs_kind: record.vcs_kind,
        worktree_state: record.worktree_state,
        repository_state: record.repository_state,
        sync_basis: record.sync_basis,
        time_created,
        time_updated: now,
    }
}

} // verus!
