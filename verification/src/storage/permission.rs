//! Durable permission rules: normalisation and merging of the per-project
//! permission blob.

use vstd::prelude::*;
use crate::json::{JsonModel, JsonValue, json_model, json_models, lemma_json_models_index, entry_models};
use crate::seqs::{keep, lemma_keep_push};

verus! {

/// Normalized permission rule used by runtime persistence helpers.
#[derive(Debug, PartialEq, Eq, Hash)]
pub struct PermissionRule {
    /// Permission category.
    pub permission: String,
    /// Wildcard pattern associated with the permission.
    pub pattern: String,
    /// Rule action (`allow`, `deny`, or `ask`).
    pub action: String,
}

/// View of a rule.
pub struct RuleModel {
    pub permission: Seq<char>,
    pub pattern: Seq<char>,
    pub action: Seq<char>,
}

impl View for PermissionRule {
    type V = RuleModel;

    open spec fn view(&self) -> RuleModel {
        RuleModel { permission: self.permission@, pattern: self.pattern@, action: self.action@ }
    }
}

/// Views of a sequence of rules.
pub open spec fn rules_view(s: Seq<PermissionRule>) -> Seq<RuleModel> {
    s.map_values(|r: PermissionRule| r@)
}

/// Actions a durable rule may carry.
pub open spec fn is_rule_action(a: Seq<char>) -> bool {
    a == "allow"@ || a == "deny"@ || a == "ask"@
}

/// The rule an array item denotes, if it has string `permission`,
/// `pattern` and `action` fields and a known action.
pub open spec fn rule_of(item: JsonModel) -> Option<RuleModel> {
    match (item.field_str("permission"@), item.field_str("pattern"@), item.field_str("action"@)) {
        (Some(p), Some(q), Some(a)) => if is_rule_action(a) {
            Some(RuleModel { permission: p, pattern: q, action: a })
        } else {
            None
        },
        _ => None,
    }
}

/// The valid rules among array items, in order.
pub open spec fn valid_rules(items: Seq<JsonModel>) -> Seq<RuleModel>
    decreases items.len(),
{
    if items.len() == 0 {
        Seq::empty()
    } else {
        let prev = valid_rules(items.drop_last());
        match rule_of(items.last()) {
            Some(r) => prev.push(r),
            None => prev,
        }
    }
}

/// The sequence with later repetitions removed (first occurrence kept).
pub open spec fn dedup(s: Seq<RuleModel>) -> Seq<RuleModel>
    decreases s.len(),
{
    if s.len() == 0 {
        Seq::empty()
    } else {
        let d = dedup(s.drop_last());
        if d.contains(s.last()) {
            d
        } else {
            d.push(s.last())
        }
    }
}

/// The valid rules of a permission blob; empty unless the blob is an array.
pub open spec fn blob_rules(data: JsonModel) -> Seq<RuleModel> {
    match data.as_array() {
        Some(items) => valid_rules(items),
        None => Seq::empty(),
    }
}

/// `normalize_rules`: deduplicated valid rules of a blob.
pub open spec fn normalized(data: JsonModel) -> Seq<RuleModel> {
    dedup(blob_rules(data))
}

/// The `allow` rules requested for `permission` and each of `patterns`.
pub open spec fn allow_rules_for(permission: Seq<char>, patterns: Seq<Seq<char>>) -> Seq<RuleModel> {
    patterns.map_values(|p: Seq<char>| RuleModel { permission, pattern: p, action: "allow"@ })
}

/// The rules of `merge_allow_rules`.
pub open spec fn merged_rules(existing: JsonModel, permission: Seq<char>, patterns: Seq<Seq<char>>) -> Seq<RuleModel> {
    dedup(blob_rules(existing) + allow_rules_for(permission, patterns))
}

/// The JSON object written for one rule.
pub open spec fn rule_json(r: RuleModel) -> JsonModel {
    JsonModel::Object(
        seq![
            ("permission"@, JsonModel::Str(r.permission)),
            ("pattern"@, JsonModel::Str(r.pattern)),
            ("action"@, JsonModel::Str(r.action)),
        ],
    )
}

/// The JSON array written for a rule list.
pub open spec fn rules_json(rs: Seq<RuleModel>) -> JsonModel {
    JsonModel::Array(rs.map_values(|r: RuleModel| rule_json(r)))
}

/// `dedup` of a push, unfolded.
proof fn lemma_dedup_push(s: Seq<RuleModel>, x: RuleModel)
    ensures
        dedup(s.push(x)) == (if dedup(s).contains(x) { dedup(s) } else { dedup(s).push(x) }),
{
    assert(s.push(x).drop_last() =~= s);
}

fn clone_string(s: &String) -> (r: String)
    ensures
        r@ == s@,
{
    s.clone()
}

/// The rule denoted by a JSON item.
fn parse_rule(item: &JsonValue) -> (r: Option<PermissionRule>)
    ensures
        match r {
            Some(rule) => rule_of(item@) == Some(rule@),
            None => rule_of(item@) is None,
        },
{
    let permission = match item.get("permission") {
        Some(v) => match v.as_str() {
            Some(s) => s,
            None => return None,
        },
        None => return None,
    };
    let pattern = match item.get("pattern") {
        Some(v) => match v.as_str() {
            Some(s) => s,
            None => return None,
        },
        None => return None,
    };
    let action = match item.get("action") {
        Some(v) => match v.as_str() {
            Some(s) => s,
            None => return None,
        },
        None => return None,
    };
    let a = action.as_str();
    if !(crate::text::str_eq(a, "allow") || crate::text::str_eq(a, "deny") || crate::text::str_eq(a, "ask")) {
        return None;
    }
    Some(PermissionRule { permission: clone_string(permission), pattern: clone_string(pattern), action: clone_string(action) })
}

/// Whether two rules are equal.
pub fn rule_eq(a: &PermissionRule, b: &PermissionRule) -> (r: bool)
    ensures
        r == (a@ == b@),
{
    a.permission == b.permission && a.pattern == b.pattern && a.action == b.action
}

/// Whether a rule list holds a rule equal to `x`.
fn rules_contain(rules: &Vec<PermissionRule>, x: &PermissionRule) -> (r: bool)
    ensures
        r == rules_view(rules@).contains(x@),
{
    let mut i: usize = 0;
    while i < rules.len()
        invariant
            i <= rules.len(),
            forall|j: int| 0 <= j < i ==> rules@[j]@ != x@,
        decreases rules.len() - i,
    {
        if rule_eq(&rules[i], x) {
            assert(rules_view(rules@)[i as int] == x@);
            return true;
        }
        i = i + 1;
    }
    assert(!rules_view(rules@).contains(x@)) by {
        if rules_view(rules@).contains(x@) {
            let j = choose|j: int| 0 <= j < rules_view(rules@).len() && rules_view(rules@)[j] == x@;
            assert(rules@[j]@ == x@);
        }
    }
    false
}

/// Normalize arbitrary JSON permission data into deduplicated valid rules.
pub fn normalize_rules(data: &JsonValue) -> (out: Vec<PermissionRule>)
    ensures
        rules_view(out@) == normalized(data@),
{
    let items = match data.as_array() {
        Some(items) => items,
        None => {
            assert(rules_view(Seq::<PermissionRule>::empty()) =~= Seq::<RuleModel>::empty());
            return Vec::new();
        },
    };
    proof {
        lemma_json_models_index(items@);
    }
    let ghost ms = json_models(items@);
    let mut out: Vec<PermissionRule> = Vec::new();
    let mut i: usize = 0;
    assert(ms.take(0) =~= Seq::<JsonModel>::empty());
    assert(rules_view(out@) =~= dedup(valid_rules(ms.take(0))));
    while i < items.len()
        invariant
            i <= items.len(),
            ms == json_models(items@),
            ms.len() == items.len(),
            forall|j: int| 0 <= j < items.len() ==> #[trigger] ms[j] == json_model(items@[j]),
            data@.as_array() == Some(ms),
            rules_view(out@) == dedup(valid_rules(ms.take(i as int))),
        decreases items.len() - i,
    {
        let ghost before = out@;
        assert(ms.take(i + 1).drop_last() =~= ms.take(i as int));
        assert(ms.take(i + 1).last() == ms[i as int]);
        match parse_rule(&items[i]) {
            Some(rule) => {
                proof {
                    lemma_dedup_push(valid_rules(ms.take(i as int)), rule@);
                }
                if !rules_contain(&out, &rule) {
                    out.push(rule);
                    assert(rules_view(out@) =~= rules_view(before).push(out@.last()@));
                }
            },
            None => {},
        }
        i = i + 1;
    }
    assert(ms.take(items.len() as int) =~= ms);
    out
}

/// The JSON object for one rule.
fn rule_to_json(r: &PermissionRule) -> (v: JsonValue)
    ensures
        v@ == rule_json(r@),
{
    let mut es: Vec<(String, JsonValue)> = Vec::new();
    es.push((String::from_str("permission"), JsonValue::String(clone_string(&r.permission))));
    es.push((String::from_str("pattern"), JsonValue::String(clone_string(&r.pattern))));
    es.push((String::from_str("action"), JsonValue::String(clone_string(&r.action))));
    proof {
        crate::json::lemma_entry_models_index(es@);
        assert(entry_models(es@) =~= seq![
            ("permission"@, JsonModel::Str(r.permission@)),
            ("pattern"@, JsonModel::Str(r.pattern@)),
            ("action"@, JsonModel::Str(r.action@)),
        ]);
    }
    JsonValue::Object(es)
}

/// Merge durable `allow` rules for `permission` and dedupe resulting rows.
pub fn merge_allow_rules(existing: &JsonValue, permission: &str, patterns: &Vec<String>) -> (out: JsonValue)
    ensures
        out@ == rules_json(merged_rules(existing@, permission@, patterns@.map_values(|p: String| p@))),
{
    let mut rules = normalize_rules(existing);
    let ghost base = blob_rules(existing@);
    let ghost adds = allow_rules_for(permission@, patterns@.map_values(|p: String| p@));
    let mut k: usize = 0;
    assert(base + adds.take(0) =~= base);
    while k < patterns.len()
        invariant
            k <= patterns.len(),
            adds == allow_rules_for(permission@, patterns@.map_values(|p: String| p@)),
            adds.len() == patterns.len(),
            rules_view(rules@) == dedup(base + adds.take(k as int)),
        decreases patterns.len() - k,
    {
        let next = PermissionRule {
            permission: permission.to_owned(),
            pattern: clone_string(&patterns[k]),
            action: String::from_str("allow"),
        };
        assert(next@ == adds[k as int]);
        assert((base + adds.take(k + 1)) =~= (base + adds.take(k as int)).push(adds[k as int]));
        proof {
            lemma_dedup_push(base + adds.take(k as int), next@);
        }
        let ghost before = rules@;
        if !rules_contain(&rules, &next) {
            rules.push(next);
            assert(rules_view(rules@) =~= rules_view(before).push(rules@.last()@));
        }
        k = k + 1;
    }
    assert(adds.take(patterns.len() as int) =~= adds);
    let mut items: Vec<JsonValue> = Vec::new();
    let mut i: usize = 0;
    while i < rules.len()
        invariant
            i <= rules.len(),
            json_models(items@) == rules_view(rules@).take(i as int).map_values(|r: RuleModel| rule_json(r)),
        decreases rules.len() - i,
    {
        let v = rule_to_json(&rules[i]);
        proof {
            crate::json::lemma_json_models_push(items@, v);
        }
        items.push(v);
        assert(rules_view(rules@).take(i + 1).map_values(|r: RuleModel| rule_json(r)) =~= rules_view(rules@).take(i as int).map_values(|r: RuleModel| rule_json(r)).push(rule_json(rules@[i as int]@)));
        i = i + 1;
    }
    assert(rules_view(rules@).take(rules.len() as int) =~= rules_view(rules@));
    JsonValue::Array(items)
}

/// An element is in `dedup(s)` exactly when it is in `s`.
proof fn lemma_dedup_contains(s: Seq<RuleModel>, x: RuleModel)
    ensures
        dedup(s).contains(x) == s.contains(x),
    decreases s.len(),
{
    if s.len() > 0 {
        lemma_dedup_contains(s.drop_last(), x);
        let d = dedup(s.drop_last());
        if s.contains(x) {
            let i = choose|i: int| 0 <= i < s.len() && s[i] == x;
            if i < s.len() - 1 {
                assert(s.drop_last()[i] == x);
                if !d.contains(s.last()) {
                    let k = choose|k: int| 0 <= k < d.len() && d[k] == x;
                    assert(d.push(s.last())[k] == x);
                }
            } else if !d.contains(s.last()) {
                assert(d.push(s.last())[d.len() as int] == x);
            }
        }
        if dedup(s).contains(x) {
            if d.contains(x) {
                let k = choose|k: int| 0 <= k < s.drop_last().len() && s.drop_last()[k] == x;
                assert(s[k] == x);
            } else {
                assert(x == s.last());
                assert(s[s.len() - 1] == x);
            }
        }
    }
}

/// `dedup` leaves no repetition.
pub proof fn lemma_dedup_unique(s: Seq<RuleModel>)
    ensures
        dedup(s).no_duplicates(),
    decreases s.len(),
{
    if s.len() > 0 {
        lemma_dedup_unique(s.drop_last());
    }
}

/// A sequence without repetition is its own `dedup`.
proof fn lemma_dedup_of_unique(s: Seq<RuleModel>)
    requires
        s.no_duplicates(),
    ensures
        dedup(s) == s,
    decreases s.len(),
{
    if s.len() > 0 {
        let t = s.drop_last();
        assert(t.no_duplicates());
        lemma_dedup_of_unique(t);
        lemma_dedup_contains(t, s.last());
        assert(!t.contains(s.last())) by {
            if t.contains(s.last()) {
                let i = choose|i: int| 0 <= i < t.len() && t[i] == s.last();
                assert(s[i] == s[s.len() - 1]);
            }
        }
        assert(t.push(s.last()) =~= s);
    }
}

/// Appending elements already present changes nothing.
proof fn lemma_dedup_absorbs(a: Seq<RuleModel>, b: Seq<RuleModel>)
    requires
        forall|i: int| 0 <= i < b.len() ==> a.contains(#[trigger] b[i]),
    ensures
        dedup(a + b) == dedup(a),
    decreases b.len(),
{
    if b.len() == 0 {
        assert(a + b =~= a);
    } else {
        let b2 = b.drop_last();
        lemma_dedup_absorbs(a, b2);
        assert((a + b).drop_last() =~= a + b2);
        assert((a + b).last() == b.last());
        assert(a.contains(b[b.len() - 1]));
        lemma_dedup_contains(a + b2, b.last());
        assert((a + b2).contains(b.last())) by {
            let i = choose|i: int| 0 <= i < a.len() && a[i] == b.last();
            assert((a + b2)[i] == b.last());
        }
    }
}

/// The rule an item written by `rule_json` reads back as.
proof fn lemma_rule_roundtrip(r: RuleModel)
    requires
        is_rule_action(r.action),
    ensures
        rule_of(rule_json(r)) == Some(r),
{
    reveal_strlit("permission");
    reveal_strlit("pattern");
    reveal_strlit("action");
    reveal_with_fuel(crate::json::entries_get, 4);
    assert("pattern"@ != "permission"@) by {
        assert("pattern"@[3] != "permission"@[3]);
    }
    assert("action"@ != "permission"@) by {
        assert("action"@[0] != "permission"@[0]);
    }
    assert("action"@ != "pattern"@) by {
        assert("action"@[0] != "pattern"@[0]);
    }
}

/// Written rules read back as themselves.
proof fn lemma_rules_roundtrip(rs: Seq<RuleModel>)
    requires
        forall|i: int| 0 <= i < rs.len() ==> is_rule_action(#[trigger] rs[i].action),
    ensures
        blob_rules(rules_json(rs)) == rs,
    decreases rs.len(),
{
    let items = rs.map_values(|r: RuleModel| rule_json(r));
    if rs.len() > 0 {
        let t = rs.drop_last();
        lemma_rules_roundtrip(t);
        assert(items.drop_last() =~= t.map_values(|r: RuleModel| rule_json(r)));
        lemma_rule_roundtrip(rs.last());
        assert(items.last() == rule_json(rs.last()));
        assert(t.push(rs.last()) =~= rs);
    } else {
        assert(items =~= Seq::<JsonModel>::empty());
    }
}

/// Every valid rule carries a known action.
proof fn lemma_valid_rules_actions(items: Seq<JsonModel>)
    ensures
        forall|i: int| 0 <= i < valid_rules(items).len() ==> is_rule_action(#[trigger] valid_rules(items)[i].action),
    decreases items.len(),
{
    if items.len() > 0 {
        let prev = valid_rules(items.drop_last());
        lemma_valid_rules_actions(items.drop_last());
        match rule_of(items.last()) {
            Some(r) => {
                assert forall|i: int| 0 <= i < valid_rules(items).len() implies is_rule_action(#[trigger] valid_rules(items)[i].action) by {
                    if i < prev.len() {
                        assert(valid_rules(items)[i] == prev[i]);
                    } else {
                        assert(valid_rules(items)[i] == r);
                    }
                }
            },
            None => {},
        }
    }
}

/// Every rule of `dedup(s)` is a rule of `s`.
proof fn lemma_dedup_subset(s: Seq<RuleModel>)
    ensures
        forall|i: int| 0 <= i < dedup(s).len() ==> s.contains(#[trigger] dedup(s)[i]),
{
    assert forall|i: int| 0 <= i < dedup(s).len() implies s.contains(#[trigger] dedup(s)[i]) by {
        lemma_dedup_contains(s, dedup(s)[i]);
    }
}

/// Normalised rules have no repetition.
pub proof fn law_normalized_rules_unique(data: JsonModel)
    ensures
        normalized(data).no_duplicates(),
{
    lemma_dedup_unique(blob_rules(data));
}

/// A merged blob reads back as exactly its rules, without repetition.
proof fn lemma_merged_reads_back(existing: JsonModel, permission: Seq<char>, patterns: Seq<Seq<char>>)
    ensures
        blob_rules(rules_json(merged_rules(existing, permission, patterns))) == merged_rules(existing, permission, patterns),
        merged_rules(existing, permission, patterns).no_duplicates(),
        normalized(rules_json(merged_rules(existing, permission, patterns))) == merged_rules(existing, permission, patterns),
{
    let base = blob_rules(existing);
    let adds = allow_rules_for(permission, patterns);
    let m = dedup(base + adds);
    reveal_strlit("allow");
    assert forall|i: int| 0 <= i < m.len() implies is_rule_action(#[trigger] m[i].action) by {
        lemma_dedup_subset(base + adds);
        let j = choose|j: int| 0 <= j < (base + adds).len() && (base + adds)[j] == m[i];
        match existing.as_array() {
            Some(items) => lemma_valid_rules_actions(items),
            None => {},
        }
        if j < base.len() {
            assert((base + adds)[j] == base[j]);
        } else {
            assert((base + adds)[j] == adds[j - base.len()]);
        }
    }
    lemma_rules_roundtrip(m);
    lemma_dedup_unique(base + adds);
    lemma_dedup_of_unique(m);
}

/// Merging the same allow patterns into an already merged blob adds
/// nothing: the merge is idempotent.
pub proof fn law_merge_idempotent(existing: JsonModel, permission: Seq<char>, patterns: Seq<Seq<char>>)
    ensures
        merged_rules(rules_json(merged_rules(existing, permission, patterns)), permission, patterns)
            == merged_rules(existing, permission, patterns),
{
    let base = blob_rules(existing);
    let adds = allow_rules_for(permission, patterns);
    let m = dedup(base + adds);
    lemma_merged_reads_back(existing, permission, patterns);
    assert forall|i: int| 0 <= i < adds.len() implies m.contains(#[trigger] adds[i]) by {
        assert((base + adds)[base.len() + i] == adds[i]);
        lemma_dedup_contains(base + adds, adds[i]);
    }
    lemma_dedup_absorbs(m, adds);
}

/// The rules of `adds` that are neither in `base` nor earlier in `adds`,
/// in order.
pub open spec fn fresh_rules(base: Seq<RuleModel>, adds: Seq<RuleModel>) -> Seq<RuleModel>
    decreases adds.len(),
{
    if adds.len() == 0 {
        Seq::empty()
    } else {
        let f = fresh_rules(base, adds.drop_last());
        if base.contains(adds.last()) || f.contains(adds.last()) {
            f
        } else {
            f.push(adds.last())
        }
    }
}

/// Deduplicating `blob + adds` keeps the deduplicated blob and appends the
/// fresh rules of `adds`.
proof fn lemma_dedup_append(blob: Seq<RuleModel>, adds: Seq<RuleModel>)
    ensures
        dedup(blob + adds) == dedup(blob) + fresh_rules(dedup(blob), adds),
    decreases adds.len(),
{
    if adds.len() == 0 {
        assert(blob + adds =~= blob);
        assert(dedup(blob) + Seq::<RuleModel>::empty() =~= dedup(blob));
    } else {
        let a2 = adds.drop_last();
        let x = adds.last();
        lemma_dedup_append(blob, a2);
        assert(blob + adds =~= (blob + a2).push(x));
        lemma_dedup_push(blob + a2, x);
        let d = dedup(blob);
        let f = fresh_rules(d, a2);
        assert((d + f).contains(x) <==> (d.contains(x) || f.contains(x))) by {
            if (d + f).contains(x) {
                let k = choose|k: int| 0 <= k < (d + f).len() && (d + f)[k] == x;
                if k < d.len() {
                    assert(d[k] == x);
                } else {
                    assert(f[k - d.len()] == x);
                }
            }
            if d.contains(x) {
                let k = choose|k: int| 0 <= k < d.len() && d[k] == x;
                assert((d + f)[k] == x);
            }
            if f.contains(x) {
                let k = choose|k: int| 0 <= k < f.len() && f[k] == x;
                assert((d + f)[d.len() + k] == x);
            }
        }
        assert((d + f).push(x) =~= d + f.push(x));
    }
}

/// Normalising a merged blob gives the blob's normalised rules followed by
/// the requested allow rules that were not yet present, in order and
/// without repetition.
pub proof fn law_merge_appends_new_rules(existing: JsonModel, permission: Seq<char>, patterns: Seq<Seq<char>>)
    ensures
        normalized(rules_json(merged_rules(existing, permission, patterns)))
            == normalized(existing) + fresh_rules(normalized(existing), allow_rules_for(permission, patterns)),
{
    lemma_merged_reads_back(existing, permission, patterns);
    lemma_dedup_append(blob_rules(existing), allow_rules_for(permission, patterns));
}

/// Every requested allow rule is present after a merge, and the merge
/// keeps every rule that was there.
pub proof fn law_merge_keeps_and_adds(existing: JsonModel, permission: Seq<char>, patterns: Seq<Seq<char>>)
    ensures
        forall|i: int| 0 <= i < patterns.len() ==> merged_rules(existing, permission, patterns).contains(
            RuleModel { permission, pattern: #[trigger] patterns[i], action: "allow"@ },
        ),
        forall|i: int| 0 <= i < blob_rules(existing).len() ==> merged_rules(existing, permission, patterns).contains(
            #[trigger] blob_rules(existing)[i],
        ),
{
    let base = blob_rules(existing);
    let adds = allow_rules_for(permission, patterns);
    assert forall|i: int| 0 <= i < patterns.len() implies merged_rules(existing, permission, patterns).contains(
        RuleModel { permission, pattern: #[trigger] patterns[i], action: "allow"@ },
    ) by {
        assert((base + adds)[base.len() + i] == adds[i]);
        lemma_dedup_contains(base + adds, adds[i]);
    }
    assert forall|i: int| 0 <= i < base.len() implies merged_rules(existing, permission, patterns).contains(
        #[trigger] base[i],
    ) by {
        assert((base + adds)[i] == base[i]);
        lemma_dedup_contains(base + adds, base[i]);
    }
}

/// Rules whose action is `allow`.
pub open spec fn is_allow() -> spec_fn(RuleModel) -> bool {
    |r: RuleModel| r.action == "allow"@
}

/// The `allow` rules of a permission blob, normalised, in order.
pub fn allow_rules_of(data: &JsonValue) -> (out: Vec<PermissionRule>)
    ensures
        rules_view(out@) == keep(normalized(data@), is_allow()),
{
    let all = normalize_rules(data);
    let ghost nv = rules_view(all@);
    let mut out: Vec<PermissionRule> = Vec::new();
    let mut rest = all;
    let mut i: usize = 0;
    let n = rest.len();
    assert(nv.take(0) =~= Seq::<RuleModel>::empty());
    assert(rules_view(out@) =~= Seq::<RuleModel>::empty());
    while rest.len() > 0
        invariant
            i + rest@.len() == n,
            n == nv.len(),
            rules_view(rest@) == nv.skip(i as int),
            rules_view(out@) == keep(nv.take(i as int), is_allow()),
        decreases rest.len(),
    {
        let ghost prev = rest@;
        let r = rest.remove(0);
        let ghost x = r@;
        assert(rules_view(prev)[0] == x);
        assert(nv.take(i + 1) =~= nv.take(i as int).push(x));
        assert forall|k: int| 0 <= k < rest@.len() implies #[trigger] rules_view(rest@)[k] == nv.skip(i + 1)[k] by {
            assert(rest@[k] == prev[k + 1]);
            assert(rules_view(prev)[k + 1] == nv.skip(i as int)[k + 1]);
        }
        assert(rules_view(rest@) =~= nv.skip(i + 1));
        proof {
            lemma_keep_push(nv.take(i as int), x, is_allow());
        }
        if crate::text::str_eq(r.action.as_str(), "allow") {
            let ghost before = out@;
            out.push(r);
            assert(rules_view(out@) =~= rules_view(before).push(x));
        }
        i = i + 1;
    }
    assert(nv.take(n as int) =~= nv);
    out
}

} // verus!
