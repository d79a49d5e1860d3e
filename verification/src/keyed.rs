//! Lists of (session, value) pairs with distinct sessions, read as maps;
//! `upsert` is `HashMap::insert`.

use vstd::prelude::*;
use crate::ids::SessionId;

verus! {

/// The sessions of a pair list, in order.
pub open spec fn pair_keys<V>(s: Seq<(SessionId, V)>) -> Seq<SessionId> {
    s.map_values(|e: (SessionId, V)| e.0)
}

/// The map a pair list denotes (a later pair wins).
pub open spec fn pair_map<V>(s: Seq<(SessionId, V)>) -> Map<SessionId, V>
    decreases s.len(),
{
    if s.len() == 0 {
        Map::empty()
    } else {
        pair_map(s.drop_last()).insert(s.last().0, s.last().1)
    }
}

pub proof fn lemma_pair_map<V>(s: Seq<(SessionId, V)>)
    requires
        pair_keys(s).no_duplicates(),
    ensures
        forall|i: int| 0 <= i < s.len() ==> #[trigger] pair_map(s).contains_key(s[i].0) && pair_map(s)[s[i].0] == s[i].1,
        forall|k: SessionId| #[trigger] pair_map(s).contains_key(k) <==> pair_keys(s).contains(k),
    decreases s.len(),
{
    if s.len() > 0 {
        let t = s.drop_last();
        assert(pair_keys(t) =~= pair_keys(s).drop_last());
        assert(pair_keys(t).no_duplicates());
        lemma_pair_map(t);
        assert forall|i: int| 0 <= i < s.len() implies #[trigger] pair_map(s).contains_key(s[i].0) && pair_map(s)[s[i].0] == s[i].1 by {
            if i < s.len() - 1 {
                assert(t[i] == s[i]);
                assert(pair_map(t).contains_key(t[i].0));
                assert(pair_keys(s)[i] == s[i].0);
                assert(pair_keys(s)[s.len() - 1] == s.last().0);
                assert(s[i].0 != s.last().0);
            } else {
                assert(s[i] == s.last());
            }
        }
        assert forall|k: SessionId| #[trigger] pair_map(s).contains_key(k) <==> pair_keys(s).contains(k) by {
            if pair_keys(s).contains(k) {
                let j = choose|j: int| 0 <= j < pair_keys(s).len() && pair_keys(s)[j] == k;
                if j < s.len() - 1 {
                    assert(pair_keys(t)[j] == k);
                }
            }
            if pair_map(s).contains_key(k) && k != s.last().0 {
                assert(pair_map(t).contains_key(k));
                assert(pair_keys(t).contains(k));
                let j = choose|j: int| 0 <= j < pair_keys(t).len() && pair_keys(t)[j] == k;
                assert(pair_keys(t)[j] == pair_keys(s)[j]);
            }
            if k == s.last().0 {
                assert(pair_keys(s)[s.len() - 1] == k);
            }
        }
    }
}

/// Insert or replace the value of `k`.
pub fn upsert<V>(v: &mut Vec<(SessionId, V)>, k: SessionId, val: V)
    requires
        pair_keys(old(v)@).no_duplicates(),
    ensures
        pair_keys(final(v)@).no_duplicates(),
        pair_map(final(v)@) == pair_map(old(v)@).insert(k, val),
{
    proof {
        lemma_pair_map(v@);
    }
    let mut i: usize = 0;
    while i < v.len()
        invariant
            i <= v.len(),
            v@ == old(v)@,
            pair_keys(v@).no_duplicates(),
            forall|j: int| 0 <= j < i ==> v@[j].0 != k,
        decreases v.len() - i,
    {
        if v[i].0 == k {
            let ghost before = v@;
            v.set(i, (k, val));
            proof {
                lemma_pair_map(before);
                assert(pair_keys(v@) =~= pair_keys(before));
                lemma_pair_map(v@);
                let m1 = pair_map(v@);
                let m0 = pair_map(before).insert(k, val);
                assert forall|x: SessionId| m1.contains_key(x) <==> m0.contains_key(x) by {
                    if x == k {
                        assert(pair_keys(v@)[i as int] == k);
                        assert(pair_keys(before)[i as int] == k);
                    }
                }
                assert forall|x: SessionId| m1.contains_key(x) implies m1[x] == m0[x] by {
                    let j = choose|j: int| 0 <= j < pair_keys(v@).len() && pair_keys(v@)[j] == x;
                    assert(v@[j].0 == x);
                    if j != i {
                        assert(v@[j] == before[j]);
                        assert(pair_keys(before)[i as int] == k);
                        assert(pair_keys(before)[j] == x);
                    }
                }
                assert(m1 =~= m0);
            }
            return;
        }
        i = i + 1;
    }
    let ghost before = v@;
    proof {
        lemma_pair_map(before);
        assert(!pair_keys(before).contains(k)) by {
            if pair_keys(before).contains(k) {
                let j = choose|j: int| 0 <= j < pair_keys(before).len() && pair_keys(before)[j] == k;
                assert(before[j].0 == k);
            }
        }
    }
    v.push((k, val));
    proof {
        assert(pair_keys(v@) =~= pair_keys(before).push(k));
        assert(v@.drop_last() =~= before);
        assert forall|a: int, b: int| 0 <= a < pair_keys(v@).len() && 0 <= b < pair_keys(v@).len() && a != b implies pair_keys(v@)[a] != pair_keys(v@)[b] by {
            if a < before.len() && b < before.len() {
                assert(pair_keys(v@)[a] == pair_keys(before)[a]);
                assert(pair_keys(v@)[b] == pair_keys(before)[b]);
            } else if a < before.len() {
                assert(pair_keys(v@)[a] == pair_keys(before)[a]);
            } else {
                assert(pair_keys(v@)[b] == pair_keys(before)[b]);
            }
        }
    }
}

} // verus!
