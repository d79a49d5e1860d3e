//! Permission runtime: wildcard rule matching and the pending-request
//! registry behind the ask/reply flow.
//!
//! The registry decides which waiters a reply resolves and how; the program
//! around it owns the waiters' channels and the storage calls.

use vstd::prelude::*;
use crate::ids::{ProjectId, SessionId, uuid_text};
use crate::json::{JsonModel, JsonValue, json_models};
use crate::storage::permission::{PermissionRule, RuleModel, rules_view, allow_rules_of, merge_allow_rules, normalized, is_allow, rules_json, merged_rules};
use crate::text::{
    chars_of, chars_eq, chars_index_of, chars_starts_with, chars_ends_with, find_from, split_chars,
    nonempty_only, pieces_view, nonempty_pieces, split, index_of, occurs_at, starts_with,
    ends_with, strings_view, lemma_split_push,
};
use crate::session::types::{PermissionRequest, PermissionRequestModel, PermissionReply, PermissionReplyKind, tool_ref_view};
use crate::bus::BusEvent;
use crate::seqs::{keep, lemma_keep_push, lemma_keep_subset};
use crate::errors::{SessionError, StorageError, storage_error_text};

verus! {

/// The non-empty pieces of a rule pattern between `*` characters.
pub open spec fn star_segments(p: Seq<char>) -> Seq<Seq<char>> {
    nonempty_pieces(split(p, '*'))
}

/// The segments occur in `s`, in order and without overlap, the first one
/// at or after `start`.
pub open spec fn in_order_from(segs: Seq<Seq<char>>, s: Seq<char>, start: int) -> bool
    decreases segs.len(),
{
    segs.len() == 0 || exists|i: int|
        start <= i && occurs_at(s, segs[0], i) && in_order_from(
            segs.drop_first(),
            s,
            i + segs[0].len(),
        )
}

/// Whether a rule pattern covers a requested pattern.
///
/// Equal patterns and the rule `*` always match. Otherwise a rule needs a
/// `*`; its first non-empty segment must begin the requested pattern, the
/// remaining segments must follow in order, and unless the rule ends with
/// `*` the requested pattern must end with the last segment.
pub open spec fn wildcard_match(rule: Seq<char>, req: Seq<char>) -> bool {
    let segs = star_segments(rule);
    rule == req || rule == seq!['*'] || (index_of(rule, '*') is Some && (segs.len() == 0 || (
    starts_with(req, segs[0]) && in_order_from(segs.drop_first(), req, segs[0].len() as int)))
        && (rule.last() == '*' || segs.len() == 0 || ends_with(req, segs.last())))
}

proof fn lemma_in_order_mono(segs: Seq<Seq<char>>, s: Seq<char>, a: int, b: int)
    requires
        b <= a,
        in_order_from(segs, s, a),
    ensures
        in_order_from(segs, s, b),
{
    if segs.len() > 0 {
        let i = choose|i: int|
            a <= i && occurs_at(s, segs[0], i) && in_order_from(
                segs.drop_first(),
                s,
                i + segs[0].len(),
            );
        assert(b <= i);
    }
}

/// Matching the leftmost occurrence of the first segment loses nothing.
proof fn lemma_greedy(segs: Seq<Seq<char>>, s: Seq<char>, start: int, i0: int)
    requires
        segs.len() > 0,
        start <= i0,
        occurs_at(s, segs[0], i0),
        forall|j: int| start <= j < i0 ==> !occurs_at(s, segs[0], j),
    ensures
        in_order_from(segs, s, start) == in_order_from(segs.drop_first(), s, i0 + segs[0].len()),
{
    if in_order_from(segs, s, start) {
        let i = choose|i: int|
            start <= i && occurs_at(s, segs[0], i) && in_order_from(
                segs.drop_first(),
                s,
                i + segs[0].len(),
            );
        assert(i0 <= i);
        lemma_in_order_mono(segs.drop_first(), s, i + segs[0].len(), i0 + segs[0].len());
    }
}

/// The non-empty segments of a rule pattern.
fn segments_of(rule: &Vec<char>) -> (r: Vec<Vec<char>>)
    ensures
        pieces_view(r@) == star_segments(rule@),
{
    let pieces = split_chars(rule, '*');
    nonempty_only(pieces)
}

/// Whether a rule pattern covers a requested pattern.
#[verifier::loop_isolation(false)]
pub fn wildcard_matches(rule_pattern: &str, requested_pattern: &str) -> (r: bool)
    ensures
        r == wildcard_match(rule_pattern@, requested_pattern@),
{
    let rule = chars_of(rule_pattern);
    let req = chars_of(requested_pattern);
    if chars_eq(&rule, &req) {
        return true;
    }
    if rule.len() == 1 && rule[0] == '*' {
        assert(rule@ =~= seq!['*']);
        return true;
    }
    assert(rule@ != seq!['*']);
    if chars_index_of(&rule, '*').is_none() {
        return false;
    }
    let segs = segments_of(&rule);
    let ghost sv = pieces_view(segs@);
    if segs.len() > 0 {
        if !chars_starts_with(&req, &segs[0]) {
            return false;
        }
        let mut pos: usize = segs[0].len();
        let mut k: usize = 1;
        assert(sv.drop_first() =~= sv.subrange(1, sv.len() as int));
        while k < segs.len()
            invariant
                1 <= k <= segs.len(),
                sv == pieces_view(segs@),
                pos <= req.len(),
                in_order_from(sv.drop_first(), req@, sv[0].len() as int) == in_order_from(
                    sv.subrange(k as int, sv.len() as int),
                    req@,
                    pos as int,
                ),
            decreases segs.len() - k,
        {
            let ghost rest = sv.subrange(k as int, sv.len() as int);
            assert(rest[0] == segs@[k as int]@);
            assert(rest.drop_first() =~= sv.subrange(k + 1, sv.len() as int));
            match find_from(&req, &segs[k], pos) {
                Some(i) => {
                    proof {
                        lemma_greedy(rest, req@, pos as int, i as int);
                    }
                    pos = i + segs[k].len();
                },
                None => {
                    assert(!in_order_from(rest, req@, pos as int));
                    return false;
                },
            }
            k = k + 1;
        }
        assert(sv.subrange(segs.len() as int, sv.len() as int).len() == 0);
    }
    if rule[rule.len() - 1] != '*' && segs.len() > 0 {
        return chars_ends_with(&req, &segs[segs.len() - 1]);
    }
    true
}

/// Whether every requested pattern is covered by an allow rule for the
/// request's permission.
pub open spec fn fully_allowed(request: PermissionRequestModel, rules: Seq<RuleModel>) -> bool {
    forall|p: int|
        0 <= p < request.patterns.len() ==> pattern_covered(
            request.permission,
            #[trigger] request.patterns[p],
            rules,
        )
}

/// Some rule for `permission` covers `pattern`.
pub open spec fn pattern_covered(permission: Seq<char>, pattern: Seq<char>, rules: Seq<RuleModel>) -> bool {
    exists|k: int|
        0 <= k < rules.len() && rules[k].permission == permission && wildcard_match(
            #[trigger] rules[k].pattern,
            pattern,
        )
}

/// Whether one pattern is covered by some rule for `permission`.
fn pattern_allowed(permission: &String, pattern: &String, rules: &Vec<PermissionRule>) -> (r: bool)
    ensures
        r == pattern_covered(permission@, pattern@, rules_view(rules@)),
{
    let mut k: usize = 0;
    while k < rules.len()
        invariant
            k <= rules.len(),
            forall|j: int|
                0 <= j < k ==> !(rules_view(rules@)[j].permission == permission@ && wildcard_match(
                    #[trigger] rules_view(rules@)[j].pattern,
                    pattern@,
                )),
        decreases rules.len() - k,
    {
        if rules[k].permission == *permission && wildcard_matches(
            rules[k].pattern.as_str(),
            pattern.as_str(),
        ) {
            assert(rules_view(rules@)[k as int] == rules@[k as int]@);
            assert(wildcard_match(rules_view(rules@)[k as int].pattern, pattern@));
            return true;
        }
        k = k + 1;
    }
    false
}

/// Whether every requested pattern is covered by an allow rule.
pub fn request_is_fully_allowed(request: &PermissionRequest, allow_rules: &Vec<PermissionRule>) -> (r: bool)
    ensures
        r == fully_allowed(request@, rules_view(allow_rules@)),
{
    let mut p: usize = 0;
    while p < request.patterns.len()
        invariant
            p <= request.patterns.len(),
            forall|q: int|
                0 <= q < p ==> pattern_covered(
                    request.permission@,
                    #[trigger] strings_view(request.patterns@)[q],
                    rules_view(allow_rules@),
                ),
        decreases request.patterns.len() - p,
    {
        if !pattern_allowed(&request.permission, &request.patterns[p], allow_rules) {
            assert(strings_view(request.patterns@)[p as int] == request.patterns@[p as int]@);
            assert(!pattern_covered(request@.permission, request@.patterns[p as int], rules_view(allow_rules@)));
            return false;
        }
        p = p + 1;
    }
    true
}

/// A pending permission request and the waiter parked with it.
pub struct PendingPermission<W> {
    /// The request.
    pub request: PermissionRequest,
    /// Whatever resolves the asking side (a reply channel).
    pub waiter: W,
}

/// Requests of a sequence of pending entries.
pub open spec fn pending_requests<W>(items: Seq<PendingPermission<W>>) -> Seq<PermissionRequestModel> {
    items.map_values(|p: PendingPermission<W>| p.request@)
}

/// Entries whose request satisfies `p`.
pub open spec fn on_request<W>(p: spec_fn(PermissionRequestModel) -> bool) -> spec_fn(PendingPermission<W>) -> bool {
    |e: PendingPermission<W>| p(e.request@)
}

/// Keeping the entries whose request satisfies `p` keeps exactly those
/// requests.
pub proof fn lemma_pending_keep<W>(s: Seq<PendingPermission<W>>, p: spec_fn(PermissionRequestModel) -> bool)
    ensures
        pending_requests(keep(s, on_request::<W>(p))) == keep(pending_requests(s), p),
    decreases s.len(),
{
    if s.len() > 0 {
        lemma_pending_keep(s.drop_last(), p);
        assert(pending_requests(s.drop_last()) =~= pending_requests(s).drop_last());
        let r = keep(s.drop_last(), on_request::<W>(p));
        assert(pending_requests(r.push(s.last())) =~= pending_requests(r).push(s.last().request@));
    }
}

/// No two requests share an id.
pub open spec fn unique_ids(s: Seq<PermissionRequestModel>) -> bool {
    forall|i: int, j: int| 0 <= i < s.len() && 0 <= j < s.len() && i != j ==> #[trigger] s[i].id != #[trigger] s[j].id
}

/// Requests of session `sid`.
pub open spec fn of_session(sid: SessionId) -> spec_fn(PermissionRequestModel) -> bool {
    |r: PermissionRequestModel| r.session_id == sid
}

/// Requests not of session `sid`.
pub open spec fn not_of_session(sid: SessionId) -> spec_fn(PermissionRequestModel) -> bool {
    |r: PermissionRequestModel| r.session_id != sid
}

/// Requests of session `sid` that the rules fully allow.
pub open spec fn covered_in(sid: SessionId, rules: Seq<RuleModel>) -> spec_fn(PermissionRequestModel) -> bool {
    |r: PermissionRequestModel| r.session_id == sid && fully_allowed(r, rules)
}

/// Requests that are not `covered_in`.
pub open spec fn not_covered_in(sid: SessionId, rules: Seq<RuleModel>) -> spec_fn(PermissionRequestModel) -> bool {
    |r: PermissionRequestModel| !(r.session_id == sid && fully_allowed(r, rules))
}

proof fn lemma_keep_unique(s: Seq<PermissionRequestModel>, p: spec_fn(PermissionRequestModel) -> bool)
    requires
        unique_ids(s),
    ensures
        unique_ids(keep(s, p)),
    decreases s.len(),
{
    if s.len() > 0 {
        let t = s.drop_last();
        assert(unique_ids(t)) by {
            assert forall|i: int, j: int| 0 <= i < t.len() && 0 <= j < t.len() && i != j implies #[trigger] t[i].id != #[trigger] t[j].id by {
                assert(t[i] == s[i] && t[j] == s[j]);
            }
        }
        lemma_keep_unique(t, p);
        lemma_keep_subset(t, p);
        let r = keep(t, p);
        if p(s.last()) {
            assert forall|i: int, j: int| 0 <= i < r.push(s.last()).len() && 0 <= j < r.push(s.last()).len() && i != j implies #[trigger] r.push(s.last())[i].id != #[trigger] r.push(s.last())[j].id by {
                if i < r.len() && j < r.len() {
                } else if i < r.len() {
                    assert(t.contains(r[i]));
                    let k = choose|k: int| 0 <= k < t.len() && t[k] == r[i];
                    assert(s[k] == r[i]);
                    assert(s[s.len() - 1] == s.last());
                } else {
                    assert(t.contains(r[j]));
                    let k = choose|k: int| 0 <= k < t.len() && t[k] == r[j];
                    assert(s[k] == r[j]);
                    assert(s[s.len() - 1] == s.last());
                }
            }
        }
    }
}

/// Registry of pending permission requests, keyed by request id.
pub struct PermissionPending<W> {
    items: Vec<PendingPermission<W>>,
}

/// What a reply asks the caller to do.
pub enum ReplyPlan<W> {
    /// No pending request has that id for that session; nothing changed.
    Unmatched,
    /// Resolve these waiters with success.
    Approve(Vec<PendingPermission<W>>),
    /// Resolve these waiters with the rejection error.
    Reject(Vec<PendingPermission<W>>),
    /// Persist the request's durable patterns, then call `finish_always`.
    Persist(PendingPermission<W>),
}

impl<W> PermissionPending<W> {
    /// The pending entries (request and waiter), in registration order.
    pub closed spec fn entries(&self) -> Seq<PendingPermission<W>> {
        self.items@
    }

    /// The pending requests, in registration order.
    pub open spec fn requests(&self) -> Seq<PermissionRequestModel> {
        pending_requests(self.entries())
    }

    #[verifier::type_invariant]
    spec fn inv(&self) -> bool {
        unique_ids(self.requests())
    }

    /// An empty registry.
    pub fn new() -> (r: Self)
        ensures
            r.entries() == Seq::<PendingPermission<W>>::empty(),
            r.requests() == Seq::<PermissionRequestModel>::empty(),
    {
        let r = PermissionPending { items: Vec::new() };
        assert(r.requests() =~= Seq::<PermissionRequestModel>::empty());
        r
    }

    /// Position of the pending request with id `id`.
    pub fn position(&self, id: &String) -> (r: Option<usize>)
        ensures
            match r {
                Some(i) => i < self.requests().len() && self.requests()[i as int].id == id@,
                None => forall|i: int| 0 <= i < self.requests().len() ==> self.requests()[i].id != id@,
            },
    {
        let mut i: usize = 0;
        while i < self.items.len()
            invariant
                i <= self.items.len(),
                forall|j: int| 0 <= j < i ==> self.requests()[j].id != id@,
            decreases self.items.len() - i,
        {
            if self.items[i].request.id == *id {
                return Some(i);
            }
            i = i + 1;
        }
        None
    }

    /// Register a pending request (`HashMap::insert` by id). A request
    /// already pending under the same id is replaced and handed back.
    pub fn register(&mut self, request: PermissionRequest, waiter: W) -> (r: Option<PendingPermission<W>>)
        ensures
            match r {
                Some(old_entry) => exists|i: int|
                    0 <= i < old(self).requests().len() && old(self).requests()[i].id == request@.id
                        && old_entry.request@ == old(self).requests()[i]
                        && old_entry == old(self).entries()[i]
                        && final(self).entries() == old(self).entries().update(i, (PendingPermission { request, waiter }))
                        && final(self).requests() == old(self).requests().update(i, request@),
                None => (forall|i: int|
                    0 <= i < old(self).requests().len() ==> old(self).requests()[i].id != request@.id)
                    && final(self).entries() == old(self).entries().push((PendingPermission { request, waiter }))
                    && final(self).requests() == old(self).requests().push(request@),
            },
    {
        proof {
            use_type_invariant(&*self);
        }
        let pos = self.position(&request.id);
        let ghost req_view = request@;
        let entry = PendingPermission { request, waiter };
        match pos {
            Some(i) => {
                let mut items = Vec::new();
                std::mem::swap(&mut items, &mut self.items);
                let ghost before = items@;
                let mut slot = entry;
                std::mem::swap(&mut slot, &mut items[i]);
                proof {
                    assert(pending_requests(items@) =~= pending_requests(before).update(i as int, req_view));
                    assert(unique_ids(pending_requests(items@))) by {
                        let s = pending_requests(items@);
                        let o = pending_requests(before);
                        assert forall|a: int, b: int| 0 <= a < s.len() && 0 <= b < s.len() && a != b implies #[trigger] s[a].id != #[trigger] s[b].id by {
                            if a != i && b != i {
                                assert(s[a] == o[a] && s[b] == o[b]);
                            } else if a == i {
                                assert(s[b] == o[b]);
                                assert(o[i as int].id == req_view.id);
                            } else {
                                assert(s[a] == o[a]);
                                assert(o[i as int].id == req_view.id);
                            }
                        }
                    }
                }
                self.items = items;
                Some(slot)
            },
            None => {
                let mut items = Vec::new();
                std::mem::swap(&mut items, &mut self.items);
                let ghost before = items@;
                items.push(entry);
                proof {
                    assert(pending_requests(items@) =~= pending_requests(before).push(req_view));
                    let s = pending_requests(items@);
                    let o = pending_requests(before);
                    assert forall|a: int, b: int| 0 <= a < s.len() && 0 <= b < s.len() && a != b implies #[trigger] s[a].id != #[trigger] s[b].id by {
                        if a < o.len() && b < o.len() {
                            assert(s[a] == o[a] && s[b] == o[b]);
                        } else if a < o.len() {
                            assert(s[a] == o[a]);
                        } else {
                            assert(s[b] == o[b]);
                        }
                    }
                }
                self.items = items;
                None
            },
        }
    }

    /// Copies of all pending requests.
    pub fn list(&self) -> (r: Vec<PermissionRequest>)
        ensures
            r@.map_values(|q: PermissionRequest| q@) == self.requests(),
    {
        let mut out: Vec<PermissionRequest> = Vec::new();
        let mut i: usize = 0;
        while i < self.items.len()
            invariant
                i <= self.items.len(),
                out@.map_values(|q: PermissionRequest| q@) == self.requests().take(i as int),
            decreases self.items.len() - i,
        {
            let q = self.items[i].request.copy();
            let ghost before = out@;
            out.push(q);
            assert(out@.map_values(|q: PermissionRequest| q@) =~= before.map_values(|q: PermissionRequest| q@).push(q@));
            assert(self.requests().take(i + 1) =~= self.requests().take(i as int).push(self.requests()[i as int]));
            i = i + 1;
        }
        assert(self.requests().take(self.items.len() as int) =~= self.requests());
        out
    }

    /// Remove the entry at `i`.
    fn take_at(&mut self, i: usize) -> (r: PendingPermission<W>)
        requires
            i < old(self).requests().len(),
        ensures
            r == old(self).entries()[i as int],
            final(self).entries() == old(self).entries().remove(i as int),
            r.request@ == old(self).requests()[i as int],
            final(self).requests() == old(self).requests().remove(i as int),
    {
        proof {
            use_type_invariant(&*self);
        }
        let mut items = Vec::new();
        std::mem::swap(&mut items, &mut self.items);
        let ghost before = items@;
        let r = items.remove(i);
        proof {
            assert(pending_requests(items@) =~= pending_requests(before).remove(i as int));
            let s = pending_requests(items@);
            let o = pending_requests(before);
            assert forall|a: int, b: int| 0 <= a < s.len() && 0 <= b < s.len() && a != b implies #[trigger] s[a].id != #[trigger] s[b].id by {
                let a2 = if a < i { a } else { a + 1 };
                let b2 = if b < i { b } else { b + 1 };
                assert(s[a] == o[a2] && s[b] == o[b2]);
            }
        }
        self.items = items;
        r
    }

    /// Remove every entry whose request satisfies `covered_in(sid, rules)`
    /// (when `use_rules`) or belongs to `sid` (otherwise), returning them in
    /// order.
    fn take_matching(&mut self, sid: SessionId, use_rules: bool, rules: &Vec<PermissionRule>) -> (r: Vec<PendingPermission<W>>)
        ensures
            use_rules ==> final(self).entries() == keep(old(self).entries(), on_request::<W>(not_covered_in(sid, rules_view(rules@)))),
            use_rules ==> r@ == keep(old(self).entries(), on_request::<W>(covered_in(sid, rules_view(rules@)))),
            !use_rules ==> final(self).entries() == keep(old(self).entries(), on_request::<W>(not_of_session(sid))),
            !use_rules ==> r@ == keep(old(self).entries(), on_request::<W>(of_session(sid))),
            use_rules ==> final(self).requests() == keep(old(self).requests(), not_covered_in(sid, rules_view(rules@))),
            use_rules ==> pending_requests(r@) == keep(old(self).requests(), covered_in(sid, rules_view(rules@))),
            !use_rules ==> final(self).requests() == keep(old(self).requests(), not_of_session(sid)),
            !use_rules ==> pending_requests(r@) == keep(old(self).requests(), of_session(sid)),
    {
        proof {
            use_type_invariant(&*self);
        }
        let ghost orig_e = self.entries();
        let ghost orig = self.requests();
        let ghost hit = if use_rules { covered_in(sid, rules_view(rules@)) } else { of_session(sid) };
        let ghost miss = if use_rules { not_covered_in(sid, rules_view(rules@)) } else { not_of_session(sid) };
        let ghost hit_e = on_request::<W>(hit);
        let ghost miss_e = on_request::<W>(miss);
        let mut items = Vec::new();
        std::mem::swap(&mut items, &mut self.items);
        let mut kept: Vec<PendingPermission<W>> = Vec::new();
        let mut taken: Vec<PendingPermission<W>> = Vec::new();
        let ghost n = items.len();
        let mut i: usize = 0;
        assert(orig_e.take(0) =~= Seq::<PendingPermission<W>>::empty());
        while items.len() > 0
            invariant
                i + items.len() == n,
                n == orig_e.len(),
                items@ == orig_e.skip(i as int),
                kept@ == keep(orig_e.take(i as int), miss_e),
                taken@ == keep(orig_e.take(i as int), hit_e),
                forall|x: PermissionRequestModel| #[trigger] hit(x) == !miss(x),
                hit_e == on_request::<W>(hit),
                miss_e == on_request::<W>(miss),
                use_rules ==> hit == covered_in(sid, rules_view(rules@)),
                !use_rules ==> hit == of_session(sid),
            decreases items.len(),
        {
            let ghost prev = items@;
            let e = items.remove(0);
            let ghost ge = e;
            assert(orig_e.skip(i as int)[0] == ge);
            assert(orig_e.take(i + 1) =~= orig_e.take(i as int).push(ge));
            assert(items@ =~= orig_e.skip(i + 1));
            proof {
                lemma_keep_push(orig_e.take(i as int), ge, miss_e);
                lemma_keep_push(orig_e.take(i as int), ge, hit_e);
            }
            let is_hit = if use_rules {
                e.request.session_id == sid && request_is_fully_allowed(&e.request, rules)
            } else {
                e.request.session_id == sid
            };
            assert(is_hit == hit(ge.request@));
            if is_hit {
                taken.push(e);
            } else {
                kept.push(e);
            }
            i = i + 1;
        }
        assert(orig_e.take(n as int) =~= orig_e);
        proof {
            lemma_pending_keep(orig_e, miss);
            lemma_pending_keep(orig_e, hit);
            lemma_keep_unique(orig, miss);
        }
        self.items = kept;
        taken
    }

    /// Remove and return the entry a reply addresses: its id must be pending
    /// and belong to the reply's session; otherwise nothing changes.
    pub fn take_for_reply(&mut self, reply: &PermissionReply) -> (r: Option<PendingPermission<W>>)
        ensures
            match r {
                Some(e) => exists|i: int|
                    0 <= i < old(self).requests().len() && old(self).requests()[i].id == reply.request_id@
                        && old(self).requests()[i].session_id == reply.session_id
                        && e.request@ == old(self).requests()[i]
                        && e == old(self).entries()[i]
                        && final(self).entries() == old(self).entries().remove(i)
                        && final(self).requests() == old(self).requests().remove(i),
                None => final(self).entries() == old(self).entries()
                    && final(self).requests() == old(self).requests() && forall|i: int|
                    0 <= i < old(self).requests().len() && old(self).requests()[i].id == reply.request_id@
                        ==> old(self).requests()[i].session_id != reply.session_id,
            },
    {
        proof {
            use_type_invariant(&*self);
        }
        match self.position(&reply.request_id) {
            None => None,
            Some(i) => {
                if self.items[i].request.session_id == reply.session_id {
                    Some(self.take_at(i))
                } else {
                    proof {
                        assert forall|j: int| 0 <= j < self.requests().len() && self.requests()[j].id == reply.request_id@ implies self.requests()[j].session_id != reply.session_id by {
                            if j != i {
                                assert(self.requests()[j].id != self.requests()[i as int].id);
                            }
                        }
                    }
                    None
                }
            },
        }
    }

    /// Remove every pending request of session `sid`.
    pub fn take_session(&mut self, sid: SessionId) -> (r: Vec<PendingPermission<W>>)
        ensures
            final(self).entries() == keep(old(self).entries(), on_request::<W>(not_of_session(sid))),
            r@ == keep(old(self).entries(), on_request::<W>(of_session(sid))),
            final(self).requests() == keep(old(self).requests(), not_of_session(sid)),
            pending_requests(r@) == keep(old(self).requests(), of_session(sid)),
    {
        let no_rules: Vec<PermissionRule> = Vec::new();
        self.take_matching(sid, false, &no_rules)
    }

    /// Remove every pending request of session `sid` that the rules fully
    /// allow.
    pub fn take_covered(&mut self, sid: SessionId, rules: &Vec<PermissionRule>) -> (r: Vec<PendingPermission<W>>)
        ensures
            final(self).entries() == keep(old(self).entries(), on_request::<W>(not_covered_in(sid, rules_view(rules@)))),
            r@ == keep(old(self).entries(), on_request::<W>(covered_in(sid, rules_view(rules@)))),
            final(self).requests() == keep(old(self).requests(), not_covered_in(sid, rules_view(rules@))),
            pending_requests(r@) == keep(old(self).requests(), covered_in(sid, rules_view(rules@))),
    {
        self.take_matching(sid, true, rules)
    }

    /// Apply a client reply.
    ///
    /// An unknown id, or an id pending for another session, changes nothing.
    /// `once` resolves the addressed request; `reject` resolves it and every
    /// other pending request of the session with the rejection error;
    /// `always` takes the request out and asks the caller to persist its
    /// durable patterns before `finish_always`.
    pub fn reply(&mut self, reply: &PermissionReply) -> (plan: ReplyPlan<W>)
        ensures
            match plan {
                ReplyPlan::Unmatched => final(self).entries() == old(self).entries()
                    && final(self).requests() == old(self).requests() && forall|i: int|
                    0 <= i < old(self).requests().len() && old(self).requests()[i].id == reply.request_id@
                        ==> old(self).requests()[i].session_id != reply.session_id,
                ReplyPlan::Approve(v) => reply.reply == PermissionReplyKind::Once && exists|i: int|
                    0 <= i < old(self).requests().len() && old(self).requests()[i].id == reply.request_id@
                        && old(self).requests()[i].session_id == reply.session_id
                        && pending_requests(v@) == seq![old(self).requests()[i]]
                        && v@ == seq![old(self).entries()[i]]
                        && final(self).entries() == old(self).entries().remove(i)
                        && final(self).requests() == old(self).requests().remove(i),
                ReplyPlan::Reject(v) => reply.reply == PermissionReplyKind::Reject && exists|i: int|
                    0 <= i < old(self).requests().len() && old(self).requests()[i].id == reply.request_id@
                        && old(self).requests()[i].session_id == reply.session_id
                        && pending_requests(v@) == seq![old(self).requests()[i]] + keep(old(self).requests().remove(i), of_session(reply.session_id))
                        && v@ == seq![old(self).entries()[i]] + keep(old(self).entries().remove(i), on_request::<W>(of_session(reply.session_id)))
                        && final(self).entries() == keep(old(self).entries().remove(i), on_request::<W>(not_of_session(reply.session_id)))
                        && final(self).requests() == keep(old(self).requests().remove(i), not_of_session(reply.session_id)),
                ReplyPlan::Persist(e) => reply.reply == PermissionReplyKind::Always && exists|i: int|
                    0 <= i < old(self).requests().len() && old(self).requests()[i].id == reply.request_id@
                        && old(self).requests()[i].session_id == reply.session_id
                        && e.request@ == old(self).requests()[i]
                        && e == old(self).entries()[i]
                        && final(self).entries() == old(self).entries().remove(i)
                        && final(self).requests() == old(self).requests().remove(i),
            },
    {
        match self.take_for_reply(reply) {
            None => ReplyPlan::Unmatched,
            Some(e) => match reply.reply {
                PermissionReplyKind::Once => {
                    let mut v = Vec::new();
                    v.push(e);
                    assert(pending_requests(v@) =~= seq![v@[0].request@]);
                    assert(v@ =~= seq![v@[0]]);
                    ReplyPlan::Approve(v)
                },
                PermissionReplyKind::Always => ReplyPlan::Persist(e),
                PermissionReplyKind::Reject => {
                    let others = self.take_session(reply.session_id);
                    let mut v = Vec::new();
                    v.push(e);
                    let ghost first = v@;
                    let mut others = others;
                    let ghost rest = others@;
                    v.append(&mut others);
                    assert(pending_requests(v@) =~= pending_requests(first) + pending_requests(rest));
                    assert(v@ =~= first + rest);
                    ReplyPlan::Reject(v)
                },
            },
        }
    }

    /// Finish an `always` reply once its patterns are persisted and the
    /// project's allow rules re-read: the taken request and every pending
    /// request of its session that the rules now fully allow are approved.
    pub fn finish_always(&mut self, taken: PendingPermission<W>, allow_rules: &Vec<PermissionRule>) -> (r: Vec<PendingPermission<W>>)
        ensures
            final(self).entries() == keep(old(self).entries(), on_request::<W>(not_covered_in(taken.request@.session_id, rules_view(allow_rules@)))),
            r@ == seq![taken] + keep(old(self).entries(), on_request::<W>(covered_in(taken.request@.session_id, rules_view(allow_rules@)))),
            final(self).requests() == keep(old(self).requests(), not_covered_in(taken.request@.session_id, rules_view(allow_rules@))),
            pending_requests(r@) == seq![taken.request@] + keep(old(self).requests(), covered_in(taken.request@.session_id, rules_view(allow_rules@))),
    {
        let sid = taken.request.session_id;
        let mut others = self.take_covered(sid, allow_rules);
        let mut v = Vec::new();
        v.push(taken);
        let ghost first = v@;
        let ghost rest = others@;
        v.append(&mut others);
        assert(pending_requests(v@) =~= pending_requests(first) + pending_requests(rest));
        assert(v@ =~= first + rest);
        v
    }
}

/// Patterns persisted by an `always` reply: the request's `always` list, or
/// its `patterns` when that list is empty.
pub fn persist_patterns(request: &PermissionRequest) -> (r: Vec<String>)
    ensures
        strings_view(r@) == (if request.always@.len() == 0 { request@.patterns } else { request@.always }),
{
    if request.always.len() == 0 {
        crate::text::clone_strings(&request.patterns)
    } else {
        crate::text::clone_strings(&request.always)
    }
}

/// The event published once a permission request is pending: every field
/// of the request.
pub fn permission_asked_event(request: &PermissionRequest) -> (r: BusEvent)
    ensures
        r matches BusEvent::PermissionAsked { session_id, request_id, permission, patterns, metadata, always, tool }
            && session_id == request.session_id && request_id@ == request.id@
            && permission@ == request.permission@ && strings_view(patterns@) == request@.patterns
            && metadata@ == request@.metadata && strings_view(always@) == request@.always
            && tool_ref_view(tool) == request@.tool,
{
    let q = request.copy();
    BusEvent::PermissionAsked {
        session_id: q.session_id,
        request_id: q.id,
        permission: q.permission,
        patterns: q.patterns,
        metadata: q.metadata,
        always: q.always,
        tool: q.tool,
    }
}

/// The event published once a reply resolved a pending request: the
/// reply's session, request id and kind.
pub fn permission_replied_event(reply: &PermissionReply) -> (r: BusEvent)
    ensures
        r matches BusEvent::PermissionReplied { session_id, request_id, reply: kind }
            && session_id == reply.session_id && request_id@ == reply.request_id@ && kind == reply.reply,
{
    BusEvent::PermissionReplied {
        session_id: reply.session_id,
        request_id: reply.request_id.clone(),
        reply: reply.reply,
    }
}

/// Error delivered to waiters of rejected requests.
pub fn rejection_error() -> (e: SessionError)
    ensures
        e matches SessionError::RuntimeInternal(m) && m@ == "permission request rejected"@,
{
    SessionError::RuntimeInternal(String::from_str("permission request rejected"))
}

/// A failure of the permission rule storage, as the runtime reports it.
pub fn storage_to_session_error(error: &StorageError) -> (e: SessionError)
    ensures
        e matches SessionError::RuntimeInternal(m) && m@ == "permission storage failure: "@
            + storage_error_text(*error),
{
    SessionError::RuntimeInternal(String::from_str("permission storage failure: ").concat(error.message().as_str()))
}

/// The project whose rules govern a session's permissions, from the
/// session lookup: a failed lookup is a storage failure and a missing
/// session is not found.
pub fn permission_project(session_id: SessionId, lookup: Result<Option<ProjectId>, StorageError>) -> (r: Result<ProjectId, SessionError>)
    ensures
        match lookup {
            Err(e) => r matches Err(SessionError::RuntimeInternal(m)) && m@ == "permission storage failure: "@
                + storage_error_text(e),
            Ok(None) => r matches Err(SessionError::NotFound(m)) && m@ == uuid_text(session_id.0),
            Ok(Some(p)) => r matches Ok(q) && q == p,
        },
{
    match lookup {
        Err(e) => Err(storage_to_session_error(&e)),
        Ok(None) => Err(SessionError::NotFound(session_id.text())),
        Ok(Some(p)) => Ok(p),
    }
}

/// The allow rules of a project, from its permission-row lookup: a failed
/// lookup is a storage failure, no row means no rules, and a row gives the
/// `allow` rules of its normalised blob.
pub fn project_allow_rules(lookup: Result<Option<JsonValue>, StorageError>) -> (r: Result<Vec<PermissionRule>, SessionError>)
    ensures
        match lookup {
            Err(e) => r matches Err(SessionError::RuntimeInternal(m)) && m@ == "permission storage failure: "@
                + storage_error_text(e),
            Ok(None) => r matches Ok(v) && v@.len() == 0,
            Ok(Some(d)) => r matches Ok(v) && rules_view(v@) == keep(normalized(d@), is_allow()),
        },
{
    match lookup {
        Err(e) => Err(storage_to_session_error(&e)),
        Ok(None) => Ok(Vec::new()),
        Ok(Some(d)) => Ok(allow_rules_of(&d)),
    }
}

/// The blob an `always` reply stores: the request's durable patterns
/// merged as allow rules into the existing blob, or into an empty list
/// when the project has none.
pub fn always_rules_blob(existing: Option<JsonValue>, request: &PermissionRequest) -> (r: JsonValue)
    ensures
        r@ == rules_json(merged_rules(
            match existing {
                Some(d) => d@,
                None => JsonModel::Array(Seq::empty()),
            },
            request.permission@,
            if request.always@.len() == 0 { request@.patterns } else { request@.always },
        )),
{
    let base = match existing {
        Some(d) => d,
        None => {
            let empty: Vec<JsonValue> = Vec::new();
            assert(json_models(empty@) =~= Seq::<JsonModel>::empty());
            JsonValue::Array(empty)
        },
    };
    let patterns = persist_patterns(request);
    merge_allow_rules(&base, request.permission.as_str(), &patterns)
}

/// The last piece of `p*s` split at `*` is `s`, when `s` holds no `*`.
proof fn lemma_split_last_piece(p: Seq<char>, s: Seq<char>)
    requires
        forall|i: int| 0 <= i < s.len() ==> s[i] != '*',
    ensures
        split(p + seq!['*'] + s, '*').len() >= 1,
        split(p + seq!['*'] + s, '*').last() == s,
    decreases s.len(),
{
    if s.len() == 0 {
        assert(p + seq!['*'] + s =~= p.push('*'));
        lemma_split_push(p, '*', '*');
    } else {
        let s2 = s.drop_last();
        assert forall|i: int| 0 <= i < s2.len() implies s2[i] != '*' by {
            assert(s2[i] == s[i]);
        }
        lemma_split_last_piece(p, s2);
        assert(p + seq!['*'] + s =~= (p + seq!['*'] + s2).push(s.last()));
        lemma_split_push(p + seq!['*'] + s2, '*', s.last());
        assert(s2.push(s.last()) =~= s);
    }
}

/// A rule whose text after its last `*` is a non-empty `s` covers a
/// requested pattern only if that pattern ends with `s`.
pub proof fn law_rule_tail_must_end_request(p: Seq<char>, s: Seq<char>, req: Seq<char>)
    requires
        s.len() > 0,
        forall|i: int| 0 <= i < s.len() ==> s[i] != '*',
    ensures
        wildcard_match(p + seq!['*'] + s, req) ==> req.len() >= s.len()
            && req.subrange(req.len() - s.len(), req.len() as int) == s,
{
    let rule = p + seq!['*'] + s;
    lemma_split_last_piece(p, s);
    let ps = split(rule, '*');
    assert(ps.last().len() > 0);
    assert(star_segments(rule) == nonempty_pieces(ps.drop_last()).push(ps.last()));
    assert(star_segments(rule).last() == s);
    assert(rule[rule.len() - 1] == s[s.len() - 1]);
    assert(rule.last() != '*');
    assert(rule != seq!['*']) by {
        if rule == seq!['*'] {
            assert(rule[rule.len() - 1] == '*');
        }
    }
    if rule == req {
        assert(req.subrange(req.len() - s.len(), req.len() as int) =~= s);
    }
}

/// The rule `*` covers every requested pattern.
pub proof fn law_star_rule_covers_everything(req: Seq<char>)
    ensures
        wildcard_match(seq!['*'], req),
{
}

/// A rule without `*` covers exactly the pattern equal to it.
pub proof fn law_plain_rule_matches_only_itself(rule: Seq<char>, req: Seq<char>)
    requires
        index_of(rule, '*') is None,
    ensures
        wildcard_match(rule, req) <==> rule == req,
{
    if rule == seq!['*'] {
        assert(rule[0] == '*');
        crate::text::lemma_index_of_bounds(rule, '*');
    }
}

/// After a `reject` reply no request of the replying session stays pending.
pub proof fn law_reject_clears_session(before: Seq<PermissionRequestModel>, i: int, sid: SessionId)
    requires
        0 <= i < before.len(),
    ensures
        forall|k: int|
            0 <= k < keep(before.remove(i), not_of_session(sid)).len() ==> (#[trigger] keep(
                before.remove(i),
                not_of_session(sid),
            )[k]).session_id != sid,
{
    lemma_keep_subset(before.remove(i), not_of_session(sid));
}

/// After an `always` reply, every request of that session that is still
/// pending is one the re-read allow rules do not fully cover.
pub proof fn law_always_leaves_only_uncovered(before: Seq<PermissionRequestModel>, sid: SessionId, rules: Seq<RuleModel>)
    ensures
        forall|k: int|
            0 <= k < keep(before, not_covered_in(sid, rules)).len() && (#[trigger] keep(
                before,
                not_covered_in(sid, rules),
            )[k]).session_id == sid ==> !fully_allowed(keep(before, not_covered_in(sid, rules))[k], rules),
{
    lemma_keep_subset(before, not_covered_in(sid, rules));
}

/// Requests of other sessions survive a reply untouched: they stay pending
/// in their order whatever the reply to this session was.
pub proof fn law_other_sessions_untouched(before: Seq<PermissionRequestModel>, sid: SessionId, other: SessionId, rules: Seq<RuleModel>)
    requires
        other != sid,
    ensures
        keep(keep(before, not_of_session(sid)), of_session(other)) == keep(before, of_session(other)),
        keep(keep(before, not_covered_in(sid, rules)), of_session(other)) == keep(before, of_session(other)),
    decreases before.len(),
{
    if before.len() > 0 {
        law_other_sessions_untouched(before.drop_last(), sid, other, rules);
        let x = before.last();
        assert(before.drop_last().push(x) =~= before);
        lemma_keep_push(before.drop_last(), x, not_of_session(sid));
        lemma_keep_push(before.drop_last(), x, not_covered_in(sid, rules));
        lemma_keep_push(before.drop_last(), x, of_session(other));
        lemma_keep_push(keep(before.drop_last(), not_of_session(sid)), x, of_session(other));
        lemma_keep_push(keep(before.drop_last(), not_covered_in(sid, rules)), x, of_session(other));
    }
}

} // verus!
