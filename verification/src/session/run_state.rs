//! Run-state bookkeeping: at most one active run per session, and a
//! cancellation flag for each active run.

use vstd::prelude::*;
use crate::errors::SessionError;
use std::collections::HashMap;
use vstd::std_specs::iter::IteratorSpec;
use crate::ids::{SessionId, Uid, uuid_text};

verus! {

/// Read-only snapshot of a session run lease.
#[derive(Debug, Clone, Copy, PartialEq, Eq, Structural)]
pub struct RunSnapshot {
    /// Whether a run lease is currently active.
    pub is_active: bool,
    /// Whether the active run has been cancellation-signalled.
    pub is_cancelled: bool,
}

/// Lease for the active run of one session; hand it back to
/// [`RunState::release`] when the run ends.
#[derive(Debug)]
pub struct RunGuard {
    session_id: SessionId,
}

impl RunGuard {
    /// The session whose run this lease holds.
    pub closed spec fn session(&self) -> SessionId {
        self.session_id
    }

    /// The session whose run this lease holds.
    pub fn session_id(&self) -> (r: SessionId)
        ensures
            r == self.session(),
    {
        self.session_id
    }
}

/// Active runs after acquiring `sid`: none when it already has a run,
/// else `sid` joins, not cancelled.
pub open spec fn acquire_spec(m: Map<SessionId, bool>, sid: SessionId) -> Option<Map<SessionId, bool>> {
    if m.contains_key(sid) {
        None
    } else {
        Some(m.insert(sid, false))
    }
}

/// Whether cancelling `sid` signals its run, and the active runs after:
/// an active run not yet cancelled becomes cancelled; otherwise nothing
/// changes.
pub open spec fn cancel_spec(m: Map<SessionId, bool>, sid: SessionId) -> (bool, Map<SessionId, bool>) {
    if m.contains_key(sid) && !m[sid] {
        (true, m.insert(sid, true))
    } else {
        (false, m)
    }
}

/// The active runs that a table keyed by session value denotes.
pub open spec fn runs_of(t: Map<u128, bool>) -> Map<SessionId, bool> {
    Map::new(|k: SessionId| t.contains_key(k.0), |k: SessionId| t[k.0])
}

/// In-memory per-session run-state coordinator: a table from each active
/// session's id value to whether its run was cancelled.
pub struct RunState {
    runs: HashMap<u128, bool>,
}

impl View for RunState {
    type V = Map<SessionId, bool>;

    /// Each active session, mapped to whether its run was cancelled.
    closed spec fn view(&self) -> Map<SessionId, bool> {
        runs_of(self.runs@)
    }
}

impl RunState {
    /// A coordinator with no active run.
    pub fn new() -> (r: Self)
        ensures
            r@ == Map::<SessionId, bool>::empty(),
    {
        let r = RunState { runs: HashMap::new() };
        assert(r@ =~= Map::<SessionId, bool>::empty());
        r
    }

    /// Acquire exclusive run ownership for `session_id`.
    ///
    /// Fails with `Busy` (carrying the session id's text) when a run is
    /// already active for the session; otherwise the session becomes
    /// active and not cancelled.
    pub fn acquire(&mut self, session_id: SessionId) -> (r: Result<RunGuard, SessionError>)
        ensures
            match r {
                Ok(g) => g.session() == session_id && acquire_spec(old(self)@, session_id) == Some(final(self)@),
                Err(e) => acquire_spec(old(self)@, session_id) is None && final(self)@ == old(self)@
                    && (e matches SessionError::Busy(m) && m@ == uuid_text(session_id.0)),
            },
    {
        broadcast use vstd::std_specs::hash::group_hash_axioms;
        if self.runs.contains_key(&session_id.0) {
            return Err(SessionError::Busy(session_id.text()));
        }
        let ghost before = self.runs@;
        self.runs.insert(session_id.0, false);
        assert(runs_of(self.runs@) =~= runs_of(before).insert(session_id, false));
        Ok(RunGuard { session_id })
    }

    /// Cancel the active run of `session_id`.
    ///
    /// Returns `true` when an active, not yet cancelled run existed; it is
    /// now cancelled. Otherwise nothing changes.
    pub fn cancel(&mut self, session_id: SessionId) -> (r: bool)
        ensures
            (r, final(self)@) == cancel_spec(old(self)@, session_id),
    {
        broadcast use vstd::std_specs::hash::group_hash_axioms;
        let active = match self.runs.get(&session_id.0) {
            Some(c) => !*c,
            None => false,
        };
        if !active {
            return false;
        }
        let ghost before = self.runs@;
        self.runs.insert(session_id.0, true);
        assert(runs_of(self.runs@) =~= runs_of(before).insert(session_id, true));
        true
    }

    /// Snapshot of run occupancy and cancellation for one session.
    pub fn snapshot(&self, session_id: SessionId) -> (r: RunSnapshot)
        ensures
            r.is_active == self@.contains_key(session_id),
            r.is_cancelled == (self@.contains_key(session_id) && self@[session_id]),
    {
        broadcast use vstd::std_specs::hash::group_hash_axioms;
        match self.runs.get(&session_id.0) {
            Some(c) => RunSnapshot { is_active: true, is_cancelled: *c },
            None => RunSnapshot { is_active: false, is_cancelled: false },
        }
    }

    /// All sessions that currently hold an active run lease, each once.
    pub fn list_active_sessions(&self) -> (r: Vec<SessionId>)
        ensures
            r@.no_duplicates(),
            forall|k: SessionId| #[trigger] r@.contains(k) <==> self@.contains_key(k),
    {
        broadcast use vstd::std_specs::hash::group_hash_axioms;
        let mut out: Vec<SessionId> = Vec::new();
        let ghost keys = self.runs.keys().remaining().unref();
        assert(keys.to_set() == self.runs@.dom());
        assert(keys.no_duplicates());
        for k in it: self.runs.keys()
            invariant
                keys == it.seq().unref(),
                keys.to_set() == self.runs@.dom(),
                keys.no_duplicates(),
                out@ == keys.take(it.index() as int).map_values(|v: u128| Uid(v)),
        {
            let ghost before = out@;
            out.push(Uid(*k));
            assert(keys.take(it.index() + 1) =~= keys.take(it.index() as int).push(keys[it.index() as int]));
        }
        proof {
            assert(keys.take(keys.len() as int) =~= keys);
            assert forall|i: int, j: int| 0 <= i < out@.len() && 0 <= j < out@.len() && i != j implies out@[i] != out@[j] by {
                assert(out@[i].0 == keys[i] && out@[j].0 == keys[j]);
            }
            assert forall|k: SessionId| #[trigger] out@.contains(k) <==> self@.contains_key(k) by {
                if out@.contains(k) {
                    let i = choose|i: int| 0 <= i < out@.len() && out@[i] == k;
                    assert(keys.contains(keys[i]));
                }
                if self@.contains_key(k) {
                    assert(keys.to_set().contains(k.0));
                    let i = choose|i: int| 0 <= i < keys.len() && keys[i] == k.0;
                    assert(out@[i] == k);
                }
            }
        }
        out
    }

    /// End the run that `guard` leases: the session is no longer active.
    pub fn release(&mut self, guard: RunGuard)
        ensures
            final(self)@ == old(self)@.remove(guard.session()),
    {
        broadcast use vstd::std_specs::hash::group_hash_axioms;
        let ghost before = self.runs@;
        let sid = guard.session_id;
        self.runs.remove(&sid.0);
        assert(runs_of(self.runs@) =~= runs_of(before).remove(sid));
    }
}

impl Default for RunState {
    /// A coordinator with no active run.
    fn default() -> (r: Self)
        ensures
            r@ == Map::<SessionId, bool>::empty(),
    {
        RunState::new()
    }
}

/// A session has at most one run: once acquired, acquiring it again
/// fails until the run is released, and succeeds after.
pub proof fn law_single_active_run(m: Map<SessionId, bool>, sid: SessionId)
    requires
        acquire_spec(m, sid) is Some,
    ensures
        acquire_spec(acquire_spec(m, sid)->Some_0, sid) is None,
        acquire_spec(acquire_spec(m, sid)->Some_0.remove(sid), sid) is Some,
{
}

/// Cancelling is idempotent: a second cancel of the same session reports
/// `false` and changes nothing, and cancelling never ends a run.
pub proof fn law_cancel_idempotent(m: Map<SessionId, bool>, sid: SessionId)
    ensures
        !cancel_spec(cancel_spec(m, sid).1, sid).0,
        cancel_spec(cancel_spec(m, sid).1, sid).1 == cancel_spec(m, sid).1,
        cancel_spec(m, sid).1.dom() == m.dom(),
{
    assert(cancel_spec(m, sid).1.dom() =~= m.dom());
}

} // verus!
