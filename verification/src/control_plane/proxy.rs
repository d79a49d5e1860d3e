//! Forwarding rules: header filtering, upstream URL, retry backoff, and the
//! retry loop's decisions. Sending requests and sleeping is the caller's.

use vstd::prelude::*;
use vstd::arithmetic::power2::{pow2, lemma2_to64, lemma_pow2_unfold, lemma_pow2_strictly_increases};
use vstd::string::StrSliceExecFns;
use crate::control_plane::{RemoteTarget, WorkspaceSelector, source_text};
use crate::control_plane::error::ControlPlaneError;
use crate::control_plane::observability::{ControlPlaneMetrics, MetricsModel, bump};
use crate::server::state::{DURATION_MAX_NANOS, ProxyPolicy};
use crate::text::{
    chars_contains, chars_of, chars_to_lower, contains, eq_ignore_ascii_case, eq_ignore_case,
    to_lower,
};

verus! {

/// Header that carries the selector on the way in; never forwarded.
pub const SELECTOR_HEADER: &'static str = "x-opencode-workspace";
/// Header carrying the selector to the upstream.
pub const FORWARDED_SELECTOR_HEADER: &'static str = "x-opencode-forwarded-workspace-selector";
/// Header carrying the selector's source to the upstream.
pub const FORWARDED_SOURCE_HEADER: &'static str = "x-opencode-forwarded-workspace-source";
/// Header carrying the target instance to the upstream.
pub const FORWARDED_TARGET_HEADER: &'static str = "x-opencode-forwarded-workspace-instance";

/// Hop-by-hop headers (and `host`), compared without ASCII case.
pub open spec fn is_hop_by_hop(name: Seq<char>) -> bool {
    eq_ignore_case(name, "connection"@) || eq_ignore_case(name, "keep-alive"@) || eq_ignore_case(
        name,
        "proxy-authenticate"@,
    ) || eq_ignore_case(name, "proxy-authorization"@) || eq_ignore_case(name, "te"@)
        || eq_ignore_case(name, "trailer"@) || eq_ignore_case(name, "transfer-encoding"@)
        || eq_ignore_case(name, "upgrade"@) || eq_ignore_case(name, "host"@)
}

/// Whether a header is hop-by-hop and must not be forwarded.
pub fn should_strip_header(name: &str) -> (r: bool)
    ensures
        r == is_hop_by_hop(name@),
{
    eq_ignore_ascii_case(name, "connection") || eq_ignore_ascii_case(name, "keep-alive")
        || eq_ignore_ascii_case(name, "proxy-authenticate") || eq_ignore_ascii_case(
        name,
        "proxy-authorization",
    ) || eq_ignore_ascii_case(name, "te") || eq_ignore_ascii_case(name, "trailer")
        || eq_ignore_ascii_case(name, "transfer-encoding") || eq_ignore_ascii_case(name, "upgrade")
        || eq_ignore_ascii_case(name, "host")
}

/// WebSocket upgrade intent: `upgrade: websocket` (any case) and a
/// `connection` value containing `upgrade` (any case).
pub open spec fn websocket_upgrade_spec(upgrade: Option<Seq<char>>, connection: Option<Seq<char>>) -> bool {
    (upgrade matches Some(u) && eq_ignore_case(u, "websocket"@)) && (connection matches Some(c)
        && contains(to_lower(c), "upgrade"@))
}

/// Detect WebSocket upgrade intent from the `upgrade` and `connection`
/// header values (each `None` when absent or not visible text).
pub fn is_websocket_upgrade(upgrade: Option<&str>, connection: Option<&str>) -> (r: bool)
    ensures
        r == websocket_upgrade_spec(
            match upgrade {
                Some(u) => Some(u@),
                None => None,
            },
            match connection {
                Some(c) => Some(c@),
                None => None,
            },
        ),
{
    let has_upgrade = match upgrade {
        Some(u) => eq_ignore_ascii_case(u, "websocket"),
        None => false,
    };
    let has_connection_upgrade = match connection {
        Some(c) => {
            let lowered = chars_to_lower(&chars_of(c));
            chars_contains(&lowered, &chars_of("upgrade"))
        },
        None => false,
    };
    has_upgrade && has_connection_upgrade
}

/// `2^(attempt - 1)` (saturating subtraction), saturated at `u32::MAX`.
pub open spec fn backoff_multiplier(attempt: u32) -> nat {
    let k: nat = if attempt == 0 {
        0
    } else {
        (attempt - 1) as nat
    };
    if k < 32 {
        pow2(k)
    } else {
        u32::MAX as nat
    }
}

/// Backoff before the retry that follows attempt `attempt`: the base delay
/// times the multiplier, saturated at the largest `Duration`.
pub open spec fn backoff_spec(base: u128, attempt: u32) -> nat {
    let p = base * backoff_multiplier(attempt);
    if p > DURATION_MAX_NANOS {
        DURATION_MAX_NANOS as nat
    } else {
        p as nat
    }
}

/// Backoff (in nanoseconds) before the retry that follows attempt
/// `attempt`: doubles with each attempt from `base`.
pub fn backoff_for_attempt(base: u128, attempt: u32) -> (r: u128)
    requires
        base <= DURATION_MAX_NANOS,
    ensures
        r == backoff_spec(base, attempt),
{
    let k: u32 = attempt.saturating_sub(1);
    let mult: u32 = if k >= 32 {
        u32::MAX
    } else {
        let mut m: u32 = 1;
        let mut i: u32 = 0;
        proof {
            lemma2_to64();
        }
        while i < k
            invariant
                i <= k < 32,
                m == pow2(i as nat),
                pow2(32) == 0x1_0000_0000,
            decreases k - i,
        {
            proof {
                lemma_pow2_unfold((i + 1) as nat);
                lemma_pow2_strictly_increases((i + 1) as nat, 32);
            }
            m = m * 2;
            i = i + 1;
        }
        m
    };
    assert(mult == backoff_multiplier(attempt));
    assert(base * mult <= DURATION_MAX_NANOS * 0xffff_ffff) by (nonlinear_arith)
        requires
            base <= DURATION_MAX_NANOS,
            mult <= 0xffff_ffff,
    ;
    let p: u128 = base * (mult as u128);
    if p > DURATION_MAX_NANOS {
        DURATION_MAX_NANOS
    } else {
        p
    }
}

/// A header list as names and value bytes.
pub open spec fn headers_view(hs: Seq<(String, Vec<u8>)>) -> Seq<(Seq<char>, Seq<u8>)> {
    hs.map_values(|h: (String, Vec<u8>)| (h.0@, h.1@))
}

/// Index of the first header named `name`.
pub open spec fn header_index(hs: Seq<(Seq<char>, Seq<u8>)>, name: Seq<char>) -> Option<int>
    decreases hs.len(),
{
    if hs.len() == 0 {
        None
    } else if hs[0].0 == name {
        Some(0)
    } else {
        match header_index(hs.drop_first(), name) {
            Some(i) => Some(i + 1),
            None => None,
        }
    }
}

/// `HeaderMap::insert`: replace the value of an existing name in place, or
/// append a new name.
pub open spec fn header_insert(hs: Seq<(Seq<char>, Seq<u8>)>, name: Seq<char>, value: Seq<u8>) -> Seq<(Seq<char>, Seq<u8>)> {
    match header_index(hs, name) {
        Some(i) => hs.update(i, (name, value)),
        None => hs.push((name, value)),
    }
}

/// Headers copied from the incoming request: every header but hop-by-hop
/// ones and the selector header, inserted in order.
pub open spec fn copied_headers(src: Seq<(Seq<char>, Seq<u8>)>) -> Seq<(Seq<char>, Seq<u8>)>
    decreases src.len(),
{
    if src.len() == 0 {
        Seq::empty()
    } else {
        let acc = copied_headers(src.drop_last());
        let (n, v) = src.last();
        if is_hop_by_hop(n) || eq_ignore_case(n, "x-opencode-workspace"@) {
            acc
        } else {
            header_insert(acc, n, v)
        }
    }
}

/// Whether `HeaderValue::from_str` accepts a text: every byte is a tab or
/// at least 32 and not 127.
pub open spec fn header_text_ok(s: Seq<char>) -> bool {
    forall|i: int| 0 <= i < s.len() ==> (#[trigger] s[i] == '\t' || (s[i] as u32 >= 32 && s[i] as u32 != 127))
}

/// UTF-8 bytes of a text.
pub open spec fn text_bytes(s: Seq<char>) -> Seq<u8> {
    vstd::utf8::encode_utf8(s)
}

/// The forwarded header list, or the error for a value that cannot be a
/// header value.
pub open spec fn upstream_headers_spec(
    src: Seq<(Seq<char>, Seq<u8>)>,
    selector_raw: Seq<char>,
    selector_bytes: Seq<u8>,
    source: Seq<char>,
    source_bytes: Seq<u8>,
    instance: Seq<char>,
    instance_bytes: Seq<u8>,
) -> Result<Seq<(Seq<char>, Seq<u8>)>, Seq<char>> {
    if !header_text_ok(selector_raw) {
        Err("invalid selector header value: failed to parse header value"@)
    } else if !header_text_ok(instance) {
        Err("invalid target instance header value: failed to parse header value"@)
    } else {
        let a = header_insert(copied_headers(src), FORWARDED_SELECTOR_HEADER@, selector_bytes);
        let b = header_insert(a, FORWARDED_SOURCE_HEADER@, source_bytes);
        Ok(header_insert(b, FORWARDED_TARGET_HEADER@, instance_bytes))
    }
}

proof fn lemma_header_index(hs: Seq<(Seq<char>, Seq<u8>)>, name: Seq<char>)
    ensures
        match header_index(hs, name) {
            Some(i) => 0 <= i < hs.len() && hs[i].0 == name && forall|j: int| 0 <= j < i ==> hs[j].0 != name,
            None => forall|j: int| 0 <= j < hs.len() ==> hs[j].0 != name,
        },
    decreases hs.len(),
{
    if hs.len() > 0 && hs[0].0 != name {
        lemma_header_index(hs.drop_first(), name);
        assert forall|j: int| 0 < j < hs.len() implies hs[j] == hs.drop_first()[j - 1] by {}
    }
}

/// Insert a header into a list (`HeaderMap::insert`).
fn insert_header(hs: &mut Vec<(String, Vec<u8>)>, name: String, value: Vec<u8>)
    ensures
        headers_view(final(hs)@) == header_insert(headers_view(old(hs)@), name@, value@),
{
    proof {
        lemma_header_index(headers_view(hs@), name@);
    }
    let mut i: usize = 0;
    while i < hs.len()
        invariant
            i <= hs.len(),
            hs@ == old(hs)@,
            forall|j: int| 0 <= j < i ==> headers_view(hs@)[j].0 != name@,
        decreases hs.len() - i,
    {
        if hs[i].0 == name {
            let ghost before = hs@;
            let ghost nv = name@;
            let ghost vv = value@;
            hs.set(i, (name, value));
            proof {
                lemma_header_index(headers_view(before), nv);
                assert(headers_view(before)[i as int] == (before[i as int].0@, before[i as int].1@));
                assert(headers_view(before)[i as int].0 == nv);
                assert(header_index(headers_view(before), nv) == Some(i as int));
                assert(headers_view(hs@) =~= headers_view(before).update(i as int, (nv, vv)));
            }
            return;
        }
        i = i + 1;
    }
    let ghost before = hs@;
    let ghost nv = name@;
    let ghost vv = value@;
    proof {
        lemma_header_index(headers_view(before), nv);
    }
    hs.push((name, value));
    assert(headers_view(hs@) =~= headers_view(before).push((nv, vv)));
}

/// Whether a text can be a header value.
fn header_text_valid(s: &str) -> (r: bool)
    ensures
        r == header_text_ok(s@),
{
    let cs = chars_of(s);
    let mut i: usize = 0;
    while i < cs.len()
        invariant
            i <= cs.len(),
            cs@ == s@,
            forall|j: int| 0 <= j < i ==> (#[trigger] cs@[j] == '\t' || (cs@[j] as u32 >= 32 && cs@[j] as u32 != 127)),
        decreases cs.len() - i,
    {
        let c = cs[i];
        if !(c == '\t' || (c as u32 >= 32 && c as u32 != 127)) {
            return false;
        }
        i = i + 1;
    }
    true
}

/// Build the headers sent upstream: the incoming headers without hop-by-hop
/// ones and the selector header, plus the forwarded selector, its source,
/// and the target instance.
pub fn build_upstream_headers(
    source: &Vec<(String, Vec<u8>)>,
    target: &RemoteTarget,
    selector: &WorkspaceSelector,
) -> (r: Result<Vec<(String, Vec<u8>)>, ControlPlaneError>)
    ensures
        match (
            r,
            upstream_headers_spec(
                headers_view(source@),
                selector.raw@,
                text_bytes(selector.raw@),
                source_text(selector.source),
                text_bytes(source_text(selector.source)),
                target.instance_id@,
                text_bytes(target.instance_id@),
            ),
        ) {
            (Ok(hs), Ok(m)) => headers_view(hs@) == m,
            (Err(e), Err(m)) => e matches ControlPlaneError::Internal { message } && message@ == m,
            _ => false,
        },
{
    let mut out: Vec<(String, Vec<u8>)> = Vec::new();
    let ghost src = headers_view(source@);
    let mut i: usize = 0;
    assert(src.take(0) =~= Seq::<(Seq<char>, Seq<u8>)>::empty());
    assert(headers_view(out@) =~= Seq::<(Seq<char>, Seq<u8>)>::empty());
    proof {
        reveal_strlit("x-opencode-workspace");
    }
    while i < source.len()
        invariant
            i <= source.len(),
            src == headers_view(source@),
            headers_view(out@) == copied_headers(src.take(i as int)),
        decreases source.len() - i,
    {
        assert(src.take(i + 1).drop_last() =~= src.take(i as int));
        assert(src.take(i + 1).last() == (source@[i as int].0@, source@[i as int].1@));
        let name = source[i].0.as_str();
        if !(should_strip_header(name) || eq_ignore_ascii_case(name, SELECTOR_HEADER)) {
            let n = source[i].0.clone();
            let v = source[i].1.clone();
            insert_header(&mut out, n, v);
        }
        i = i + 1;
    }
    assert(src.take(source.len() as int) =~= src);
    if !header_text_valid(selector.raw.as_str()) {
        return Err(
            ControlPlaneError::Internal {
                message: String::from_str(
                    "invalid selector header value: failed to parse header value",
                ),
            },
        );
    }
    if !header_text_valid(target.instance_id.as_str()) {
        return Err(
            ControlPlaneError::Internal {
                message: String::from_str(
                    "invalid target instance header value: failed to parse header value",
                ),
            },
        );
    }
    insert_header(
        &mut out,
        String::from_str(FORWARDED_SELECTOR_HEADER),
        selector.raw.as_str().as_bytes_vec(),
    );
    insert_header(
        &mut out,
        String::from_str(FORWARDED_SOURCE_HEADER),
        selector.source.as_str().as_bytes_vec(),
    );
    insert_header(
        &mut out,
        String::from_str(FORWARDED_TARGET_HEADER),
        target.instance_id.as_str().as_bytes_vec(),
    );
    Ok(out)
}

/// Headers of an upstream response as `HeaderMap::into_iter` yields them:
/// a name with the first value of each header, `None` with further values.
/// Kept: each named entry that is not hop-by-hop.
pub open spec fn kept_response_headers(hs: Seq<(Option<Seq<char>>, Seq<u8>)>) -> Seq<(Seq<char>, Seq<u8>)>
    decreases hs.len(),
{
    if hs.len() == 0 {
        Seq::empty()
    } else {
        let acc = kept_response_headers(hs.drop_last());
        match hs.last().0 {
            Some(n) => if is_hop_by_hop(n) {
                acc
            } else {
                acc.push((n, hs.last().1))
            },
            None => acc,
        }
    }
}

/// View of a response header sequence.
pub open spec fn response_headers_view(hs: Seq<(Option<String>, Vec<u8>)>) -> Seq<(Option<Seq<char>>, Seq<u8>)> {
    hs.map_values(
        |h: (Option<String>, Vec<u8>)|
            (
                match h.0 {
                    Some(n) => Some(n@),
                    None => None,
                },
                h.1@,
            ),
    )
}

/// The headers of an upstream response to pass back: the first value of
/// each header that is not hop-by-hop, in order.
pub fn filter_response_headers(headers: Vec<(Option<String>, Vec<u8>)>) -> (r: Vec<(String, Vec<u8>)>)
    ensures
        headers_view(r@) == kept_response_headers(response_headers_view(headers@)),
{
    let ghost hv = response_headers_view(headers@);
    let mut out: Vec<(String, Vec<u8>)> = Vec::new();
    let mut rest = headers;
    let mut i: usize = 0;
    let ghost n = rest.len();
    assert(hv.take(0) =~= Seq::<(Option<Seq<char>>, Seq<u8>)>::empty());
    assert(headers_view(out@) =~= Seq::<(Seq<char>, Seq<u8>)>::empty());
    while rest.len() > 0
        invariant
            i + rest.len() == n,
            n == hv.len(),
            response_headers_view(rest@) == hv.skip(i as int),
            headers_view(out@) == kept_response_headers(hv.take(i as int)),
        decreases rest.len(),
    {
        let ghost prev = rest@;
        let (name, value) = rest.remove(0);
        let ghost x = hv[i as int];
        assert(response_headers_view(prev)[0] == x);
        assert(hv.take(i + 1).drop_last() =~= hv.take(i as int));
        assert(hv.take(i + 1).last() == x);
        assert forall|k: int| 0 <= k < rest@.len() implies #[trigger] response_headers_view(rest@)[k] == hv.skip(i + 1)[k] by {
            assert(rest@[k] == prev[k + 1]);
            assert(response_headers_view(prev)[k + 1] == hv.skip(i as int)[k + 1]);
        }
        assert(response_headers_view(rest@) =~= hv.skip(i + 1));
        match name {
            Some(nm) => {
                if !should_strip_header(nm.as_str()) {
                    let ghost before = out@;
                    let ghost e = (nm@, value@);
                    out.push((nm, value));
                    assert(headers_view(out@) =~= headers_view(before).push(e));
                }
            },
            None => {},
        }
        i = i + 1;
    }
    assert(hv.take(n as int) =~= hv);
    out
}

/// What `reqwest::Url` makes of a base URL with the request's path and
/// query set (`Url::parse`, `Url::set_path`, `Url::set_query`, then the
/// URL's text), or the parse error's text.
pub uninterp spec fn joined_url(base: Seq<char>, path: Seq<char>, query: Option<Seq<char>>) -> Result<Seq<char>, Seq<char>>;

/// Parses `base` with `reqwest::Url::parse`, sets the path and query, and
/// writes the URL; the result is `joined_url` of the arguments.
#[verifier::external_body]
fn join_url(base: &str, path: &str, query: Option<&str>) -> (r: Result<String, String>)
    ensures
        match (r, joined_url(base@, path@, match query {
            Some(q) => Some(q@),
            None => None,
        })) {
            (Ok(s), Ok(t)) => s@ == t,
            (Err(s), Err(t)) => s@ == t,
            _ => false,
        },
{
    match reqwest::Url::parse(base) {
        Ok(mut url) => {
            url.set_path(path);
            url.set_query(query);
            Ok(url.to_string())
        },
        Err(err) => Err(err.to_string()),
    }
}

/// Upstream URL of a forwarded request: the target's base URL with the
/// request's path and query. A base URL that does not parse is an internal
/// error naming it.
pub fn upstream_url(base_url: &str, path: &str, query: Option<&str>) -> (r: Result<String, ControlPlaneError>)
    ensures
        match (r, joined_url(base_url@, path@, match query {
            Some(q) => Some(q@),
            None => None,
        })) {
            (Ok(s), Ok(t)) => s@ == t,
            (Err(e), Err(t)) => e matches ControlPlaneError::Internal { message } && message@
                == "invalid remote base_url '"@ + base_url@ + "': "@ + t,
            _ => false,
        },
{
    match join_url(base_url, path, query) {
        Ok(s) => Ok(s),
        Err(t) => Err(
            ControlPlaneError::Internal {
                message: String::from_str("invalid remote base_url '").concat(base_url).concat(
                    "': ",
                ).concat(t.as_str()),
            },
        ),
    }
}

/// Outcome of one upstream attempt.
pub enum AttemptOutcome {
    /// A response arrived.
    Succeeded,
    /// The attempt timed out.
    TimedOut,
    /// The transport failed, with the failure's text.
    Failed(String),
}

/// What the forwarding loop does next.
pub enum ForwardStep {
    /// Hand the upstream response back.
    Deliver,
    /// Sleep this many nanoseconds, then make the next attempt.
    Retry(u128),
    /// Give up with this error.
    Fail(ControlPlaneError),
}

/// Attempt bookkeeping of one forwarded request: at most `1 + max_retries`
/// attempts.
pub struct ForwardLoop {
    attempts: u32,
    policy: ProxyPolicy,
}

impl ForwardLoop {
    /// Attempts made so far.
    pub closed spec fn attempts_spec(&self) -> u32 {
        self.attempts
    }

    /// The policy.
    pub closed spec fn policy_spec(&self) -> ProxyPolicy {
        self.policy
    }

    #[verifier::type_invariant]
    spec fn inv(&self) -> bool {
        &&& self.attempts <= self.policy.max_retries + 1
        &&& self.policy.backoff <= DURATION_MAX_NANOS
    }

    /// A loop with no attempt made yet.
    pub fn new(policy: ProxyPolicy) -> (r: Self)
        requires
            policy.backoff <= DURATION_MAX_NANOS,
        ensures
            r.attempts_spec() == 0,
            r.policy_spec() == policy,
    {
        ForwardLoop { attempts: 0, policy }
    }

    /// Attempts made so far.
    pub fn attempts(&self) -> (r: u32)
        ensures
            r == self.attempts_spec(),
    {
        self.attempts
    }

    /// Begin the next attempt, if the policy allows one, and count it.
    /// Returns the attempt's number.
    pub fn begin_attempt(&mut self, metrics: &mut ControlPlaneMetrics, target_url: &str) -> (r: Option<u32>)
        requires
            old(self).attempts_spec() < u32::MAX,
        ensures
            final(self).policy_spec() == old(self).policy_spec(),
            final(self).attempts_spec() <= final(self).policy_spec().max_retries + 1,
            old(self).attempts_spec() <= old(self).policy_spec().max_retries ==> (r == Some(
                (old(self).attempts_spec() + 1) as u32,
            ) && final(self).attempts_spec() == old(self).attempts_spec() + 1 && final(metrics)@
                == (MetricsModel { forward_attempts: bump(old(metrics)@.forward_attempts), ..old(metrics)@ })),
            old(self).attempts_spec() > old(self).policy_spec().max_retries ==> (r is None
                && final(self).attempts_spec() == old(self).attempts_spec() && final(metrics)@ == old(metrics)@),
    {
        proof {
            use_type_invariant(&*self);
        }
        if self.attempts <= self.policy.max_retries {
            self.attempts = self.attempts + 1;
            metrics.record_forward_attempt(self.attempts, target_url);
            Some(self.attempts)
        } else {
            None
        }
    }

    /// Decide after an attempt. A response is delivered. A timeout or a
    /// failure with retries left counts a retry and backs off; without
    /// retries left, a timeout counts a timeout failure and gives
    /// `UpstreamTimeout` with the attempt count, and a failure gives
    /// `UpstreamFailure` with its text.
    pub fn after_attempt(&mut self, outcome: AttemptOutcome, metrics: &mut ControlPlaneMetrics) -> (r: ForwardStep)
        requires
            old(self).attempts_spec() >= 1,
        ensures
            final(self).attempts_spec() == old(self).attempts_spec(),
            final(self).policy_spec() == old(self).policy_spec(),
            ({
                let a = old(self).attempts_spec();
                let can_retry = a <= old(self).policy_spec().max_retries;
                match outcome {
                    AttemptOutcome::Succeeded => r is Deliver && final(metrics)@ == old(metrics)@,
                    AttemptOutcome::TimedOut => if can_retry {
                        r == ForwardStep::Retry(backoff_spec(old(self).policy_spec().backoff, a) as u128)
                            && final(metrics)@ == (MetricsModel { forward_retries: bump(old(metrics)@.forward_retries), ..old(metrics)@ })
                    } else {
                        (r matches ForwardStep::Fail(ControlPlaneError::UpstreamTimeout { attempts })
                            && attempts == a) && final(metrics)@ == (MetricsModel {
                            forward_timeout_failures: bump(old(metrics)@.forward_timeout_failures),
                            ..old(metrics)@
                        })
                    },
                    AttemptOutcome::Failed(m) => if can_retry {
                        r == ForwardStep::Retry(backoff_spec(old(self).policy_spec().backoff, a) as u128)
                            && final(metrics)@ == (MetricsModel { forward_retries: bump(old(metrics)@.forward_retries), ..old(metrics)@ })
                    } else {
                        (r matches ForwardStep::Fail(ControlPlaneError::UpstreamFailure { message })
                            && message@ == m@) && final(metrics)@ == old(metrics)@
                    },
                }
            }),
    {
        proof {
            use_type_invariant(&*self);
        }
        let a = self.attempts;
        let can_retry = a <= self.policy.max_retries;
        match outcome {
            AttemptOutcome::Succeeded => ForwardStep::Deliver,
            AttemptOutcome::TimedOut => {
                if can_retry {
                    metrics.record_forward_retry(a, "timeout");
                    ForwardStep::Retry(backoff_for_attempt(self.policy.backoff, a))
                } else {
                    metrics.record_timeout_failure(a);
                    ForwardStep::Fail(ControlPlaneError::UpstreamTimeout { attempts: a })
                }
            },
            AttemptOutcome::Failed(m) => {
                if can_retry {
                    metrics.record_forward_retry(a, m.as_str());
                    ForwardStep::Retry(backoff_for_attempt(self.policy.backoff, a))
                } else {
                    ForwardStep::Fail(ControlPlaneError::UpstreamFailure { message: m })
                }
            },
        }
    }
}

/// The backoff starts at the base delay, doubles with each attempt until
/// the multiplier saturates, and never shrinks from one attempt to the
/// next.
pub proof fn law_backoff_doubles(base: u128, attempt: u32)
    requires
        base <= DURATION_MAX_NANOS,
        attempt < u32::MAX,
    ensures
        backoff_spec(base, 1) == base,
        1 <= attempt < 32 ==> backoff_multiplier((attempt + 1) as u32) == 2 * backoff_multiplier(attempt),
        backoff_spec(base, attempt) <= backoff_spec(base, (attempt + 1) as u32),
{
    lemma2_to64();
    assert(backoff_multiplier(1) == 1);
    assert(base * 1 == base);
    let next = (attempt + 1) as u32;
    if attempt == 0 {
        assert(backoff_multiplier(attempt) == backoff_multiplier(next));
    } else if attempt < 32 {
        let k = (attempt - 1) as nat;
        lemma_pow2_unfold(k + 1);
        assert(backoff_multiplier(next) == 2 * backoff_multiplier(attempt));
    } else {
        assert(backoff_multiplier(next) == u32::MAX as nat);
        assert(backoff_multiplier(attempt) <= u32::MAX as nat);
    }
    let m0 = backoff_multiplier(attempt);
    let m1 = backoff_multiplier(next);
    assert(m0 <= m1);
    assert(base * m0 <= base * m1) by (nonlinear_arith)
        requires
            m0 <= m1,
    ;
}

} // verus!
