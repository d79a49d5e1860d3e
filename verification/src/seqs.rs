//! Sequence facts used by the registries of this library.

use vstd::prelude::*;

verus! {

/// The elements of `s` that satisfy `p`, in order.
pub open spec fn keep<A>(s: Seq<A>, p: spec_fn(A) -> bool) -> Seq<A>
    decreases s.len(),
{
    if s.len() == 0 {
        Seq::empty()
    } else {
        let r = keep(s.drop_last(), p);
        if p(s.last()) {
            r.push(s.last())
        } else {
            r
        }
    }
}

pub proof fn lemma_keep_push<A>(s: Seq<A>, x: A, p: spec_fn(A) -> bool)
    ensures
        keep(s.push(x), p) == (if p(x) {
            keep(s, p).push(x)
        } else {
            keep(s, p)
        }),
{
    assert(s.push(x).drop_last() =~= s);
}

pub proof fn lemma_keep_subset<A>(s: Seq<A>, p: spec_fn(A) -> bool)
    ensures
        keep(s, p).len() <= s.len(),
        forall|i: int| 0 <= i < keep(s, p).len() ==> s.contains(#[trigger] keep(s, p)[i]) && p(keep(s, p)[i]),
    decreases s.len(),
{
    if s.len() > 0 {
        lemma_keep_subset(s.drop_last(), p);
        let r = keep(s.drop_last(), p);
        assert forall|i: int| 0 <= i < keep(s, p).len() implies s.contains(#[trigger] keep(s, p)[i]) && p(keep(s, p)[i]) by {
            if i < r.len() {
                assert(keep(s, p)[i] == r[i]);
                let j = choose|j: int| 0 <= j < s.drop_last().len() && s.drop_last()[j] == r[i];
                assert(s[j] == r[i]);
            } else {
                assert(keep(s, p)[i] == s.last());
                assert(s[s.len() - 1] == s.last());
            }
        }
    }
}

pub proof fn lemma_keep_contains<A>(s: Seq<A>, p: spec_fn(A) -> bool, x: A)
    requires
        s.contains(x),
        p(x),
    ensures
        keep(s, p).contains(x),
    decreases s.len(),
{
    if s.last() == x {
        assert(keep(s, p).last() == x);
    } else {
        let j = choose|j: int| 0 <= j < s.len() && s[j] == x;
        assert(j < s.len() - 1);
        assert(s.drop_last()[j] == x);
        lemma_keep_contains(s.drop_last(), p, x);
        let r = keep(s.drop_last(), p);
        let k = choose|k: int| 0 <= k < r.len() && r[k] == x;
        if p(s.last()) {
            assert(keep(s, p)[k] == x);
        }
    }
}

pub proof fn lemma_keep_all<A>(s: Seq<A>, p: spec_fn(A) -> bool)
    requires
        forall|i: int| 0 <= i < s.len() ==> p(#[trigger] s[i]),
    ensures
        keep(s, p) == s,
    decreases s.len(),
{
    if s.len() > 0 {
        lemma_keep_all(s.drop_last(), p);
        assert(p(s[s.len() - 1]));
        assert(s.drop_last().push(s.last()) =~= s);
    }
}

pub proof fn lemma_keep_none<A>(s: Seq<A>, p: spec_fn(A) -> bool)
    requires
        forall|i: int| 0 <= i < s.len() ==> !p(#[trigger] s[i]),
    ensures
        keep(s, p) == Seq::<A>::empty(),
    decreases s.len(),
{
    if s.len() > 0 {
        lemma_keep_none(s.drop_last(), p);
        assert(!p(s[s.len() - 1]));
    }
}

/// The values `f` gives on the elements of `s`, skipping `None`, in order.
pub open spec fn collect_some<A, B>(s: Seq<A>, f: spec_fn(A) -> Option<B>) -> Seq<B>
    decreases s.len(),
{
    if s.len() == 0 {
        Seq::empty()
    } else {
        let r = collect_some(s.drop_last(), f);
        match f(s.last()) {
            Some(b) => r.push(b),
            None => r,
        }
    }
}

pub proof fn lemma_collect_some_push<A, B>(s: Seq<A>, x: A, f: spec_fn(A) -> Option<B>)
    ensures
        collect_some(s.push(x), f) == (match f(x) {
            Some(b) => collect_some(s, f).push(b),
            None => collect_some(s, f),
        }),
{
    assert(s.push(x).drop_last() =~= s);
}

} // verus!
