//! Question runtime: the registry of pending questions behind the
//! ask/reply/reject flow.
//!
//! The registry decides which waiter a reply or a rejection resolves; the
//! program around it owns the waiters' channels and publishes the events.

use vstd::prelude::*;
use crate::session::types::{QuestionReply, QuestionRequest, QuestionRequestModel, copy_infos, copy_tool_ref, infos_view, tool_ref_view};
use crate::errors::SessionError;
use crate::bus::BusEvent;
use crate::ids::SessionId;
use crate::text::{clone_strings, strings_view};

verus! {

/// A pending question request and the waiter parked with it.
pub struct PendingQuestion<W> {
    /// The request.
    pub request: QuestionRequest,
    /// Whatever resolves the asking side (a reply channel).
    pub waiter: W,
}

/// Requests of a sequence of pending entries.
pub open spec fn pending_questions<W>(items: Seq<PendingQuestion<W>>) -> Seq<QuestionRequestModel> {
    items.map_values(|p: PendingQuestion<W>| p.request@)
}

/// No two question requests share an id.
pub open spec fn unique_question_ids(s: Seq<QuestionRequestModel>) -> bool {
    forall|i: int, j: int| 0 <= i < s.len() && 0 <= j < s.len() && i != j ==> #[trigger] s[i].id != #[trigger] s[j].id
}

/// Whether some pending request has id `id`.
pub open spec fn has_question_id(s: Seq<QuestionRequestModel>, id: Seq<char>) -> bool {
    exists|i: int| 0 <= i < s.len() && s[i].id == id
}

/// Registry of pending question requests, keyed by request id.
pub struct QuestionPending<W> {
    items: Vec<PendingQuestion<W>>,
}

impl<W> QuestionPending<W> {
    /// The pending entries (request and waiter), in registration order.
    pub closed spec fn entries(&self) -> Seq<PendingQuestion<W>> {
        self.items@
    }

    /// The pending requests, in registration order.
    pub open spec fn requests(&self) -> Seq<QuestionRequestModel> {
        pending_questions(self.entries())
    }

    #[verifier::type_invariant]
    spec fn inv(&self) -> bool {
        unique_question_ids(self.requests())
    }

    /// An empty registry.
    pub fn new() -> (r: Self)
        ensures
            r.entries() == Seq::<PendingQuestion<W>>::empty(),
            r.requests() == Seq::<QuestionRequestModel>::empty(),
    {
        let r = QuestionPending { items: Vec::new() };
        assert(r.requests() =~= Seq::<QuestionRequestModel>::empty());
        r
    }

    /// Position of the pending request with id `id`.
    fn position(&self, id: &String) -> (r: Option<usize>)
        ensures
            match r {
                Some(i) => i < self.requests().len() && self.requests()[i as int].id == id@,
                None => !has_question_id(self.requests(), id@),
            },
    {
        let mut i: usize = 0;
        while i < self.items.len()
            invariant
                i <= self.items.len(),
                forall|j: int| 0 <= j < i ==> self.requests()[j].id != id@,
            decreases self.items.len() - i,
        {
            if self.items[i].request.id == *id {
                return Some(i);
            }
            i = i + 1;
        }
        None
    }

    /// Register a pending request (`HashMap::insert` by id). A request
    /// already pending under the same id is replaced and handed back.
    pub fn register(&mut self, request: QuestionRequest, waiter: W) -> (r: Option<PendingQuestion<W>>)
        ensures
            match r {
                Some(old_entry) => exists|i: int|
                    0 <= i < old(self).requests().len() && old(self).requests()[i].id == request@.id
                        && old_entry.request@ == old(self).requests()[i]
                        && old_entry == old(self).entries()[i]
                        && final(self).entries() == old(self).entries().update(i, (PendingQuestion { request, waiter }))
                        && final(self).requests() == old(self).requests().update(i, request@),
                None => !has_question_id(old(self).requests(), request@.id)
                    && final(self).entries() == old(self).entries().push((PendingQuestion { request, waiter }))
                    && final(self).requests() == old(self).requests().push(request@),
            },
    {
        proof {
            use_type_invariant(&*self);
        }
        let pos = self.position(&request.id);
        let ghost req_view = request@;
        let entry = PendingQuestion { request, waiter };
        let mut items = Vec::new();
        std::mem::swap(&mut items, &mut self.items);
        let ghost before = items@;
        let ghost o = pending_questions(before);
        match pos {
            Some(i) => {
                let mut slot = entry;
                std::mem::swap(&mut slot, &mut items[i]);
                proof {
                    assert(pending_questions(items@) =~= o.update(i as int, req_view));
                    let s = pending_questions(items@);
                    assert forall|a: int, b: int| 0 <= a < s.len() && 0 <= b < s.len() && a != b implies #[trigger] s[a].id != #[trigger] s[b].id by {
                        if a != i && b != i {
                            assert(s[a] == o[a] && s[b] == o[b]);
                        } else if a == i {
                            assert(s[b] == o[b]);
                        } else {
                            assert(s[a] == o[a]);
                        }
                    }
                }
                self.items = items;
                Some(slot)
            },
            None => {
                items.push(entry);
                proof {
                    assert(pending_questions(items@) =~= o.push(req_view));
                    let s = pending_questions(items@);
                    assert forall|a: int, b: int| 0 <= a < s.len() && 0 <= b < s.len() && a != b implies #[trigger] s[a].id != #[trigger] s[b].id by {
                        if a < o.len() && b < o.len() {
                            assert(s[a] == o[a] && s[b] == o[b]);
                        } else if a < o.len() {
                            assert(s[a] == o[a]);
                            assert(!(o[a].id == req_view.id));
                        } else {
                            assert(s[b] == o[b]);
                            assert(!(o[b].id == req_view.id));
                        }
                    }
                }
                self.items = items;
                None
            },
        }
    }

    /// Copies of all pending requests.
    pub fn list(&self) -> (r: Vec<QuestionRequest>)
        ensures
            r@.map_values(|q: QuestionRequest| q@) == self.requests(),
    {
        let mut out: Vec<QuestionRequest> = Vec::new();
        let mut i: usize = 0;
        while i < self.items.len()
            invariant
                i <= self.items.len(),
                out@.map_values(|q: QuestionRequest| q@) == self.requests().take(i as int),
            decreases self.items.len() - i,
        {
            let q = self.items[i].request.copy();
            let ghost before = out@;
            out.push(q);
            assert(out@.map_values(|q: QuestionRequest| q@) =~= before.map_values(|q: QuestionRequest| q@).push(q@));
            assert(self.requests().take(i + 1) =~= self.requests().take(i as int).push(self.requests()[i as int]));
            i = i + 1;
        }
        assert(self.requests().take(self.items.len() as int) =~= self.requests());
        out
    }

    /// Remove the entry at `i`.
    fn take_at(&mut self, i: usize) -> (r: PendingQuestion<W>)
        requires
            i < old(self).requests().len(),
        ensures
            r == old(self).entries()[i as int],
            final(self).entries() == old(self).entries().remove(i as int),
            r.request@ == old(self).requests()[i as int],
            final(self).requests() == old(self).requests().remove(i as int),
    {
        proof {
            use_type_invariant(&*self);
        }
        let mut items = Vec::new();
        std::mem::swap(&mut items, &mut self.items);
        let ghost before = items@;
        let r = items.remove(i);
        proof {
            assert(pending_questions(items@) =~= pending_questions(before).remove(i as int));
            let s = pending_questions(items@);
            let o = pending_questions(before);
            assert forall|a: int, b: int| 0 <= a < s.len() && 0 <= b < s.len() && a != b implies #[trigger] s[a].id != #[trigger] s[b].id by {
                let a2 = if a < i { a } else { a + 1 };
                let b2 = if b < i { b } else { b + 1 };
                assert(s[a] == o[a2] && s[b] == o[b2]);
            }
        }
        self.items = items;
        r
    }

    /// Take out the request a reply answers. An unknown id, or an id
    /// pending for another session, changes nothing and gives `None`; the
    /// caller then answers `false`.
    pub fn take_for_reply(&mut self, reply: &QuestionReply) -> (r: Option<PendingQuestion<W>>)
        ensures
            match r {
                Some(e) => exists|i: int|
                    0 <= i < old(self).requests().len() && old(self).requests()[i].id == reply.request_id@
                        && old(self).requests()[i].session_id == reply.session_id
                        && e.request@ == old(self).requests()[i]
                        && e == old(self).entries()[i]
                        && final(self).entries() == old(self).entries().remove(i)
                        && final(self).requests() == old(self).requests().remove(i)
                        && !has_question_id(final(self).requests(), reply.request_id@),
                None => final(self).entries() == old(self).entries()
                    && final(self).requests() == old(self).requests() && forall|i: int|
                    0 <= i < old(self).requests().len() && old(self).requests()[i].id == reply.request_id@
                        ==> old(self).requests()[i].session_id != reply.session_id,
            },
    {
        proof {
            use_type_invariant(&*self);
        }
        match self.position(&reply.request_id) {
            None => None,
            Some(i) => {
                if self.items[i].request.session_id == reply.session_id {
                    proof {
                        law_taken_id_leaves_registry(self.requests(), i as int);
                    }
                    Some(self.take_at(i))
                } else {
                    proof {
                        assert forall|j: int| 0 <= j < self.requests().len() && self.requests()[j].id == reply.request_id@ implies self.requests()[j].session_id != reply.session_id by {
                            if j != i {
                                assert(self.requests()[j].id != self.requests()[i as int].id);
                            }
                        }
                    }
                    None
                }
            },
        }
    }

    /// Take out the request a rejection names, whatever its session. An
    /// unknown id changes nothing and gives `None`.
    pub fn take_for_reject(&mut self, request_id: &String) -> (r: Option<PendingQuestion<W>>)
        ensures
            match r {
                Some(e) => exists|i: int|
                    0 <= i < old(self).requests().len() && old(self).requests()[i].id == request_id@
                        && e.request@ == old(self).requests()[i]
                        && e == old(self).entries()[i]
                        && final(self).entries() == old(self).entries().remove(i)
                        && final(self).requests() == old(self).requests().remove(i)
                        && !has_question_id(final(self).requests(), request_id@),
                None => final(self).entries() == old(self).entries()
                    && final(self).requests() == old(self).requests() && !has_question_id(
                    old(self).requests(),
                    request_id@,
                ),
            },
    {
        proof {
            use_type_invariant(&*self);
        }
        match self.position(request_id) {
            None => None,
            Some(i) => {
                proof {
                    law_taken_id_leaves_registry(self.requests(), i as int);
                }
                Some(self.take_at(i))
            },
        }
    }
}

/// Error delivered to the waiter of a rejected question.
pub fn question_rejection_error() -> (e: SessionError)
    ensures
        e matches SessionError::RuntimeInternal(m) && m@ == "question request rejected"@,
{
    SessionError::RuntimeInternal(String::from_str("question request rejected"))
}

/// A rejected or answered id is no longer pending: no two requests share an
/// id, so removing the one found leaves none with that id.
pub proof fn law_taken_id_leaves_registry(before: Seq<QuestionRequestModel>, i: int)
    requires
        unique_question_ids(before),
        0 <= i < before.len(),
    ensures
        !has_question_id(before.remove(i), before[i].id),
{
    let s = before.remove(i);
    if has_question_id(s, before[i].id) {
        let k = choose|k: int| 0 <= k < s.len() && s[k].id == before[i].id;
        let k2 = if k < i { k } else { k + 1 };
        assert(s[k] == before[k2]);
    }
}

/// Views of the answers of a question reply.
pub open spec fn answers_view(a: Seq<Vec<String>>) -> Seq<Seq<Seq<char>>> {
    a.map_values(|v: Vec<String>| strings_view(v@))
}

/// A copy of the answers of a question reply.
pub fn clone_answers(a: &Vec<Vec<String>>) -> (r: Vec<Vec<String>>)
    ensures
        answers_view(r@) == answers_view(a@),
{
    let mut out: Vec<Vec<String>> = Vec::new();
    let mut i: usize = 0;
    while i < a.len()
        invariant
            i <= a.len(),
            answers_view(out@) == answers_view(a@).take(i as int),
        decreases a.len() - i,
    {
        let ghost before = out@;
        out.push(clone_strings(&a[i]));
        assert(answers_view(out@) =~= answers_view(before).push(strings_view(a@[i as int]@)));
        assert(answers_view(a@).take(i + 1) =~= answers_view(a@).take(i as int).push(strings_view(a@[i as int]@)));
        i = i + 1;
    }
    assert(answers_view(a@).take(a.len() as int) =~= answers_view(a@));
    out
}

/// The event published once a question request is pending: its session,
/// id, questions and tool linkage.
pub fn question_asked_event(request: &QuestionRequest) -> (r: BusEvent)
    ensures
        r matches BusEvent::QuestionAsked { session_id, request_id, questions, tool }
            && session_id == request.session_id && request_id@ == request.id@
            && infos_view(questions@) == request@.questions && tool_ref_view(tool) == request@.tool,
{
    BusEvent::QuestionAsked {
        session_id: request.session_id,
        request_id: request.id.clone(),
        questions: copy_infos(&request.questions),
        tool: copy_tool_ref(&request.tool),
    }
}

/// The event published when a reply answers a pending request: the reply's
/// session, request id and answers.
pub fn question_replied_event(reply: &QuestionReply) -> (r: BusEvent)
    ensures
        r matches BusEvent::QuestionReplied { session_id, request_id, answers }
            && session_id == reply.session_id && request_id@ == reply.request_id@
            && answers_view(answers@) == answers_view(reply.answers@),
{
    BusEvent::QuestionReplied {
        session_id: reply.session_id,
        request_id: reply.request_id.clone(),
        answers: clone_answers(&reply.answers),
    }
}

/// The event published when a pending request is rejected: the session of
/// the rejected request and its id.
pub fn question_rejected_event(session_id: SessionId, request_id: &String) -> (r: BusEvent)
    ensures
        r matches BusEvent::QuestionRejected { session_id: s, request_id: id }
            && s == session_id && id@ == request_id@,
{
    BusEvent::QuestionRejected { session_id, request_id: request_id.clone() }
}

} // verus!
