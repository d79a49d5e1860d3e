//! Route policy table for control-plane forwarding eligibility.

use vstd::prelude::*;
use crate::text::{chars_eq, chars_of, pieces_view, split, split_chars, index_of, lemma_index_of_bounds};

verus! {

/// HTTP request method.
#[derive(Debug, Clone, PartialEq, Eq)]
pub enum HttpMethod {
    Get,
    Post,
    Put,
    Patch,
    Delete,
    Head,
    Options,
    Connect,
    Trace,
    /// An extension method, by its name.
    Other(String),
}

/// Policy action chosen for a request path + method.
#[derive(Debug, Clone, Copy, PartialEq, Eq, Structural)]
pub enum PolicyAction {
    /// Route can participate in selector-based local/forward decisioning.
    Eligible,
    /// Route must always execute in-process.
    LocalOnly,
}

/// Static route policy matcher.
#[derive(Debug, Clone, Copy)]
pub struct RoutePolicy;

/// `s` without its leading run of `c` (`str::trim_start_matches`).
pub open spec fn trim_leading(s: Seq<char>, c: char) -> Seq<char>
    decreases s.len(),
{
    if s.len() > 0 && s[0] == c {
        trim_leading(s.drop_first(), c)
    } else {
        s
    }
}

/// Path segments a route is matched on: the path without leading `/`,
/// split at `/`, with a leading `api`, `v1` pair dropped.
pub open spec fn route_segments(path: Seq<char>) -> Seq<Seq<char>> {
    let segs = split(trim_leading(path, '/'), '/');
    if segs.len() >= 2 && segs[0] == "api"@ && segs[1] == "v1"@ {
        segs.skip(2)
    } else {
        segs
    }
}

/// The policy table.
///
/// Session collection and item routes, message, prompt and cancel routes,
/// `GET /session/status` and `POST /session/:id/abort` are eligible for
/// forwarding; every other route, `GET /session/**` among them, stays local.
pub open spec fn route_action(method: HttpMethod, segs: Seq<Seq<char>>) -> PolicyAction {
    let get = method is Get;
    let post = method is Post;
    let patch = method is Patch;
    if segs.len() == 3 && segs[0] == "projects"@ && segs[2] == "sessions"@ && (get || post) {
        PolicyAction::Eligible
    } else if segs.len() == 2 && segs[0] == "sessions"@ && (get || patch) {
        PolicyAction::Eligible
    } else if segs.len() == 3 && segs[0] == "sessions"@ && segs[2] == "messages"@ && (get || post) {
        PolicyAction::Eligible
    } else if segs.len() == 3 && segs[0] == "sessions"@ && (segs[2] == "prompt"@ || segs[2]
        == "cancel"@) && post {
        PolicyAction::Eligible
    } else if segs.len() == 2 && segs[0] == "session"@ && segs[1] == "status"@ && get {
        PolicyAction::Eligible
    } else if segs.len() == 3 && segs[0] == "session"@ && segs[2] == "abort"@ && post {
        PolicyAction::Eligible
    } else {
        PolicyAction::LocalOnly
    }
}

/// `s` without its leading run of `c`.
fn skip_leading(s: &Vec<char>, c: char) -> (r: Vec<char>)
    ensures
        r@ == trim_leading(s@, c),
{
    let mut i: usize = 0;
    assert(s@.skip(0) =~= s@);
    while i < s.len() && s[i] == c
        invariant
            i <= s.len(),
            trim_leading(s@, c) == trim_leading(s@.skip(i as int), c),
        decreases s.len() - i,
    {
        assert(s@.skip(i as int).drop_first() =~= s@.skip(i + 1));
        i = i + 1;
    }
    let mut out: Vec<char> = Vec::new();
    let mut j: usize = i;
    while j < s.len()
        invariant
            i <= j <= s.len(),
            out@ == s@.subrange(i as int, j as int),
        decreases s.len() - j,
    {
        out.push(s[j]);
        assert(out@ =~= s@.subrange(i as int, j + 1));
        j = j + 1;
    }
    assert(out@ =~= s@.skip(i as int));
    out
}

/// Whether a segment is the given literal.
fn seg_is(seg: &Vec<char>, lit: &str) -> (r: bool)
    ensures
        r == (seg@ == lit@),
{
    let l = chars_of(lit);
    chars_eq(seg, &l)
}

impl RoutePolicy {
    /// Classify request routing behavior for the control-plane middleware.
    pub fn classify(&self, method: &HttpMethod, path: &str) -> (r: PolicyAction)
        ensures
            r == route_action(*method, route_segments(path@)),
    {
        let chars = chars_of(path);
        let trimmed = skip_leading(&chars, '/');
        let all = split_chars(&trimmed, '/');
        let ghost sv = pieces_view(all@);
        let start: usize = if all.len() >= 2 && seg_is(&all[0], "api") && seg_is(&all[1], "v1") {
            2
        } else {
            0
        };
        let ghost segs = route_segments(path@);
        assert(segs =~= sv.skip(start as int));
        let n = all.len() - start;
        let get = matches!(method, HttpMethod::Get);
        let post = matches!(method, HttpMethod::Post);
        let patch = matches!(method, HttpMethod::Patch);
        if n == 3 && seg_is(&all[start], "projects") && seg_is(&all[start + 2], "sessions") && (get
            || post) {
            PolicyAction::Eligible
        } else if n == 2 && seg_is(&all[start], "sessions") && (get || patch) {
            PolicyAction::Eligible
        } else if n == 3 && seg_is(&all[start], "sessions") && seg_is(&all[start + 2], "messages")
            && (get || post) {
            PolicyAction::Eligible
        } else if n == 3 && seg_is(&all[start], "sessions") && (seg_is(&all[start + 2], "prompt")
            || seg_is(&all[start + 2], "cancel")) && post {
            PolicyAction::Eligible
        } else if n == 2 && seg_is(&all[start], "session") && seg_is(&all[start + 1], "status")
            && get {
            PolicyAction::Eligible
        } else if n == 3 && seg_is(&all[start], "session") && seg_is(&all[start + 2], "abort")
            && post {
            PolicyAction::Eligible
        } else {
            PolicyAction::LocalOnly
        }
    }
}

/// Reads under `/session/` stay local, but for `GET /session/status`.
pub proof fn law_session_reads_stay_local(segs: Seq<Seq<char>>)
    requires
        segs.len() >= 1,
        segs[0] == "session"@,
        segs != seq!["session"@, "status"@],
    ensures
        route_action(HttpMethod::Get, segs) == PolicyAction::LocalOnly,
{
    reveal_strlit("session");
    reveal_strlit("sessions");
    reveal_strlit("projects");
    assert("session"@.len() != "sessions"@.len());
    assert("session"@ != "projects"@) by {
        assert("session"@[0] != "projects"@[0]);
    }
    if segs.len() == 2 && segs[1] == "status"@ {
        assert(segs =~= seq!["session"@, "status"@]);
    }
}

/// Only the listed methods are ever forwarded: `PUT`, `DELETE` and the
/// other methods always stay local.
pub proof fn law_other_methods_stay_local(method: HttpMethod, segs: Seq<Seq<char>>)
    requires
        !(method is Get || method is Post || method is Patch),
    ensures
        route_action(method, segs) == PolicyAction::LocalOnly,
{
}

/// Splitting text without a separator gives the text itself.
proof fn lemma_split_whole(a: Seq<char>, c: char)
    requires
        forall|i: int| 0 <= i < a.len() ==> a[i] != c,
    ensures
        split(a, c) == seq![a],
{
    lemma_index_of_bounds(a, c);
}

/// Splitting `a`, a separator and `b`, where `a` holds no separator, gives
/// `a` followed by the pieces of `b`.
proof fn lemma_split_sep(a: Seq<char>, b: Seq<char>, c: char)
    requires
        forall|i: int| 0 <= i < a.len() ==> a[i] != c,
    ensures
        split(a + seq![c] + b, c) == seq![a] + split(b, c),
{
    let t = a + seq![c] + b;
    lemma_index_of_bounds(t, c);
    assert(t[a.len() as int] == c);
    assert forall|j: int| 0 <= j < a.len() implies t[j] != c by {
        assert(t[j] == a[j]);
    }
    assert(index_of(t, c) == Some(a.len() as int));
    assert(t.take(a.len() as int) =~= a);
    assert(t.skip(a.len() as int + 1) =~= b);
}

/// Listing and posting the messages of any session are eligible for
/// forwarding, with or without the `/api/v1` prefix.
pub proof fn law_session_messages_eligible(x: Seq<char>)
    requires
        forall|i: int| 0 <= i < x.len() ==> x[i] != '/',
    ensures
        route_action(HttpMethod::Get, route_segments("/api/v1/sessions/"@ + x + "/messages"@)) == PolicyAction::Eligible,
        route_action(HttpMethod::Post, route_segments("/api/v1/sessions/"@ + x + "/messages"@)) == PolicyAction::Eligible,
        route_action(HttpMethod::Get, route_segments("/sessions/"@ + x + "/messages"@)) == PolicyAction::Eligible,
        route_action(HttpMethod::Post, route_segments("/sessions/"@ + x + "/messages"@)) == PolicyAction::Eligible,
{
    reveal_strlit("/api/v1/sessions/");
    reveal_strlit("/sessions/");
    reveal_strlit("/messages");
    reveal_strlit("api");
    reveal_strlit("v1");
    reveal_strlit("sessions");
    reveal_strlit("messages");
    reveal_strlit("projects");
    let tail = x + seq!['/'] + "messages"@;
    lemma_split_whole("messages"@, '/');
    lemma_split_sep(x, "messages"@, '/');
    let rest = "sessions"@ + seq!['/'] + tail;
    lemma_split_sep("sessions"@, tail, '/');
    let long = "api"@ + seq!['/'] + ("v1"@ + seq!['/'] + rest);
    lemma_split_sep("v1"@, rest, '/');
    lemma_split_sep("api"@, "v1"@ + seq!['/'] + rest, '/');
    let p1 = "/api/v1/sessions/"@ + x + "/messages"@;
    assert(p1.drop_first() =~= long);
    assert(p1[0] == '/' && p1.drop_first()[0] != '/');
    assert(trim_leading(p1.drop_first(), '/') == p1.drop_first());
    assert(trim_leading(p1, '/') == long);
    let s1 = split(long, '/');
    assert(s1 =~= seq!["api"@, "v1"@, "sessions"@, x, "messages"@]);
    assert(route_segments(p1) =~= seq!["sessions"@, x, "messages"@]);
    let p2 = "/sessions/"@ + x + "/messages"@;
    assert(p2.drop_first() =~= rest);
    assert(p2[0] == '/' && p2.drop_first()[0] != '/');
    assert(trim_leading(p2.drop_first(), '/') == p2.drop_first());
    assert(trim_leading(p2, '/') == rest);
    assert(split(rest, '/') =~= seq!["sessions"@, x, "messages"@]);
    assert("sessions"@ != "api"@) by {
        assert("sessions"@.len() != "api"@.len());
    }
    assert(route_segments(p2) =~= seq!["sessions"@, x, "messages"@]);
    assert("sessions"@ != "projects"@) by {
        assert("sessions"@[0] != "projects"@[0]);
    }
}

} // verus!
