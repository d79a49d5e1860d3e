//! Workspace selector resolution from the request's query and header.

use vstd::prelude::*;
use crate::control_plane::{SelectorSource, WorkspaceSelector};
use crate::control_plane::error::ControlPlaneError;
use crate::text::{
    chars_eq, chars_of, pieces_view, split, split_chars, split_once, split_once_chars, string_of,
    trim, trim_chars, trimmed,
};

verus! {

/// Query parameter name for explicit workspace selection.
pub const WORKSPACE_SELECTOR_QUERY: &'static str = "workspace";
/// Header used as a fallback selector source when query is absent.
pub const WORKSPACE_SELECTOR_HEADER: &'static str = "x-opencode-workspace";

/// Key of a `key=value` query pair (the whole pair when it has no `=`).
pub open spec fn pair_key(p: Seq<char>) -> Seq<char> {
    match split_once(p, '=') {
        Some((k, _)) => k,
        None => p,
    }
}

/// Value of a `key=value` query pair (empty when it has no `=`).
pub open spec fn pair_value(p: Seq<char>) -> Seq<char> {
    match split_once(p, '=') {
        Some((_, v)) => v,
        None => Seq::empty(),
    }
}

/// Raw value of the first non-empty pair whose key is `workspace`.
pub open spec fn first_selector_value(pairs: Seq<Seq<char>>) -> Option<Seq<char>>
    decreases pairs.len(),
{
    if pairs.len() == 0 {
        None
    } else if pairs[0].len() > 0 && pair_key(pairs[0]) == "workspace"@ {
        Some(pair_value(pairs[0]))
    } else {
        first_selector_value(pairs.drop_first())
    }
}

/// Selector read from a query string: the trimmed value of the first
/// `workspace` pair; a blank value is an error.
pub open spec fn query_selector_spec(query: Option<Seq<char>>) -> Result<Option<Seq<char>>, Seq<char>> {
    match query {
        None => Ok(None),
        Some(q) => match first_selector_value(split(q, '&')) {
            None => Ok(None),
            Some(v) => if trimmed(v).len() == 0 {
                Err("workspace query parameter must be non-empty"@)
            } else {
                Ok(Some(trimmed(v)))
            },
        },
    }
}

/// Selector read from the header: absent gives none; a value that is not
/// text, or is blank, is an error; otherwise the trimmed value.
pub open spec fn header_selector_spec(header: Option<Option<Seq<char>>>) -> Result<Option<Seq<char>>, Seq<char>> {
    match header {
        None => Ok(None),
        Some(None) => Err("workspace selector header must be valid UTF-8"@),
        Some(Some(v)) => if trimmed(v).len() == 0 {
            Err("workspace selector header must be non-empty"@)
        } else {
            Ok(Some(trimmed(v)))
        },
    }
}

/// Selector precedence: a query selector (or query error) wins; the header
/// is read only when the query names no selector.
pub open spec fn resolve_selector_spec(query: Option<Seq<char>>, header: Option<Option<Seq<char>>>) -> Result<Option<(Seq<char>, SelectorSource)>, Seq<char>> {
    match query_selector_spec(query) {
        Err(m) => Err(m),
        Ok(Some(v)) => Ok(Some((v, SelectorSource::Query))),
        Ok(None) => match header_selector_spec(header) {
            Err(m) => Err(m),
            Ok(Some(v)) => Ok(Some((v, SelectorSource::Header))),
            Ok(None) => Ok(None),
        },
    }
}

/// The view of an optional `&str`.
pub open spec fn opt_view(o: Option<&str>) -> Option<Seq<char>> {
    match o {
        Some(s) => Some(s@),
        None => None,
    }
}

/// The view of a header lookup: absent, present but not text, or its text.
pub open spec fn header_view(h: Option<Option<&str>>) -> Option<Option<Seq<char>>> {
    match h {
        None => None,
        Some(None) => Some(None),
        Some(Some(s)) => Some(Some(s@)),
    }
}

/// Whether the result agrees with the resolution spec.
pub open spec fn resolved_as(r: Result<Option<WorkspaceSelector>, ControlPlaneError>, spec: Result<Option<(Seq<char>, SelectorSource)>, Seq<char>>) -> bool {
    match (r, spec) {
        (Ok(None), Ok(None)) => true,
        (Ok(Some(s)), Ok(Some((raw, src)))) => s.raw@ == raw && s.source == src,
        (Err(e), Err(m)) => e matches ControlPlaneError::SelectorMalformed { message } && message@ == m,
        _ => false,
    }
}

/// Selector in a query string (`Uri::query`), if any.
pub fn query_selector(query: Option<&str>) -> (r: Result<Option<String>, ControlPlaneError>)
    ensures
        match (r, query_selector_spec(opt_view(query))) {
            (Ok(None), Ok(None)) => true,
            (Ok(Some(s)), Ok(Some(v))) => s@ == v,
            (Err(e), Err(m)) => e matches ControlPlaneError::SelectorMalformed { message } && message@ == m,
            _ => false,
        },
{
    let q = match query {
        None => return Ok(None),
        Some(q) => q,
    };
    let qc = chars_of(q);
    let pairs = split_chars(&qc, '&');
    let ghost pv = pieces_view(pairs@);
    let key_lit = chars_of(WORKSPACE_SELECTOR_QUERY);
    proof {
        reveal_strlit("workspace");
    }
    let mut i: usize = 0;
    assert(pv.skip(0) =~= pv);
    while i < pairs.len()
        invariant
            i <= pairs.len(),
            pv == pieces_view(pairs@),
            pv == split(q@, '&'),
            key_lit@ == "workspace"@,
            opt_view(query) == Some(q@),
            first_selector_value(pv) == first_selector_value(pv.skip(i as int)),
        decreases pairs.len() - i,
    {
        let ghost rest = pv.skip(i as int);
        assert(rest.len() > 0);
        assert(rest[0] == pairs@[i as int]@);
        assert(rest.drop_first() =~= pv.skip(i + 1));
        let pair = &pairs[i];
        if pair.len() > 0 {
            let (key, value) = match split_once_chars(pair, '=') {
                Some((k, v)) => (k, v),
                None => (crate::text::copy_chars(pair), Vec::new()),
            };
            assert(key@ == pair_key(pair@));
            assert(value@ =~= pair_value(pair@));
            if chars_eq(&key, &key_lit) {
                assert(first_selector_value(rest) == Some(pair_value(pair@)));
                let t = trim_chars(&value);
                if t.len() == 0 {
                    proof {
                        reveal_strlit("workspace query parameter must be non-empty");
                    }
                    return Err(
                        ControlPlaneError::SelectorMalformed {
                            message: String::from_str("workspace query parameter must be non-empty"),
                        },
                    );
                }
                return Ok(Some(string_of(&t)));
            }
        }
        i = i + 1;
    }
    Ok(None)
}

/// Selector in the workspace header, if any. `header` is the header's
/// value, `Some(None)` when present but not visible text.
pub fn header_selector(header: Option<Option<&str>>) -> (r: Result<Option<String>, ControlPlaneError>)
    ensures
        match (r, header_selector_spec(header_view(header))) {
            (Ok(None), Ok(None)) => true,
            (Ok(Some(s)), Ok(Some(v))) => s@ == v,
            (Err(e), Err(m)) => e matches ControlPlaneError::SelectorMalformed { message } && message@ == m,
            _ => false,
        },
{
    match header {
        None => Ok(None),
        Some(None) => Err(
            ControlPlaneError::SelectorMalformed {
                message: String::from_str("workspace selector header must be valid UTF-8"),
            },
        ),
        Some(Some(v)) => {
            let t = trim(v);
            if t.as_str().is_empty() {
                return Err(
                    ControlPlaneError::SelectorMalformed {
                        message: String::from_str("workspace selector header must be non-empty"),
                    },
                );
            }
            Ok(Some(t))
        },
    }
}

/// Resolve selector precedence: query first, then header.
pub fn resolve_selector(query: Option<&str>, header: Option<Option<&str>>) -> (r: Result<Option<WorkspaceSelector>, ControlPlaneError>)
    ensures
        resolved_as(r, resolve_selector_spec(opt_view(query), header_view(header))),
{
    match query_selector(query) {
        Err(e) => return Err(e),
        Ok(Some(raw)) => return Ok(Some(WorkspaceSelector { raw, source: SelectorSource::Query })),
        Ok(None) => {},
    }
    match header_selector(header) {
        Err(e) => Err(e),
        Ok(Some(raw)) => Ok(Some(WorkspaceSelector { raw, source: SelectorSource::Header })),
        Ok(None) => Ok(None),
    }
}

/// A query selector always wins over the header, whatever the header holds.
pub proof fn law_query_takes_precedence(query: Seq<char>, header: Option<Option<Seq<char>>>)
    requires
        query_selector_spec(Some(query)) is Ok,
        query_selector_spec(Some(query))->Ok_0 is Some,
    ensures
        resolve_selector_spec(Some(query), header) == Ok::<Option<(Seq<char>, SelectorSource)>, Seq<char>>(
            Some((query_selector_spec(Some(query))->Ok_0->Some_0, SelectorSource::Query)),
        ),
{
}

/// A resolved selector is never blank: resolution yields trimmed,
/// non-empty text or an error.
pub proof fn law_resolved_selector_nonblank(query: Option<Seq<char>>, header: Option<Option<Seq<char>>>)
    requires
        resolve_selector_spec(query, header) matches Ok(Some(p)),
    ensures
        resolve_selector_spec(query, header)->Ok_0->Some_0.0.len() > 0,
{
}

} // verus!
