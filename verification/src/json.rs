//! A JSON document model held as plain values.
//!
//! Payloads that the runtime inspects (permission blobs, workspace metadata,
//! tool inputs, message parts) are held in this type. Contracts speak of the
//! value's view, a `JsonModel`. Reading and writing JSON text goes through
//! `serde_json`, behind the two wrappers at the end of this file.

use vstd::prelude::*;
use serde_json::Value;

verus! {

/// A JSON number: integers exactly, other numbers by their textual form.
#[derive(Debug, Clone, PartialEq)]
pub enum JsonNumber {
    /// A non-negative integer.
    PosInt(u64),
    /// A negative integer.
    NegInt(i64),
    /// Any other number, as written.
    Float(String),
}

/// A JSON value.
#[derive(Debug, PartialEq)]
pub enum JsonValue {
    /// `null`
    Null,
    /// `true` / `false`
    Bool(bool),
    /// A number.
    Number(JsonNumber),
    /// A string.
    String(String),
    /// An array.
    Array(Vec<JsonValue>),
    /// An object, as its entries in order.
    Object(Vec<(String, JsonValue)>),
}

/// Mathematical view of a JSON number.
pub enum NumberModel {
    PosInt(u64),
    NegInt(i64),
    Float(Seq<char>),
}

/// Mathematical view of a JSON value.
pub enum JsonModel {
    Null,
    Bool(bool),
    Number(NumberModel),
    Str(Seq<char>),
    Array(Seq<JsonModel>),
    Object(Seq<(Seq<char>, JsonModel)>),
}

pub open spec fn number_model(n: JsonNumber) -> NumberModel {
    match n {
        JsonNumber::PosInt(u) => NumberModel::PosInt(u),
        JsonNumber::NegInt(i) => NumberModel::NegInt(i),
        JsonNumber::Float(t) => NumberModel::Float(t@),
    }
}

/// The view of a value.
pub open spec fn json_model(v: JsonValue) -> JsonModel
    decreases v, 0int,
{
    match v {
        JsonValue::Null => JsonModel::Null,
        JsonValue::Bool(b) => JsonModel::Bool(b),
        JsonValue::Number(n) => JsonModel::Number(number_model(n)),
        JsonValue::String(s) => JsonModel::Str(s@),
        JsonValue::Array(a) => JsonModel::Array(json_models(a@)),
        JsonValue::Object(es) => JsonModel::Object(entry_models(es@)),
    }
}

/// The views of a sequence of values.
pub open spec fn json_models(s: Seq<JsonValue>) -> Seq<JsonModel>
    decreases s, 1int,
{
    if s.len() == 0 {
        Seq::empty()
    } else {
        seq![json_model(s[0])] + json_models(s.subrange(1, s.len() as int))
    }
}

/// The views of a sequence of object entries.
pub open spec fn entry_models(s: Seq<(String, JsonValue)>) -> Seq<(Seq<char>, JsonModel)>
    decreases s, 1int,
{
    if s.len() == 0 {
        Seq::empty()
    } else {
        seq![(s[0].0@, json_model(s[0].1))] + entry_models(s.subrange(1, s.len() as int))
    }
}

impl View for JsonValue {
    type V = JsonModel;

    open spec fn view(&self) -> JsonModel {
        json_model(*self)
    }
}

/// First entry with the given key.
pub open spec fn entries_get(es: Seq<(Seq<char>, JsonModel)>, key: Seq<char>) -> Option<JsonModel>
    decreases es.len(),
{
    if es.len() == 0 {
        None
    } else if es[0].0 == key {
        Some(es[0].1)
    } else {
        entries_get(es.drop_first(), key)
    }
}

impl JsonModel {
    /// Field lookup on an object (`Value::get` with a string key); `None` on
    /// other values.
    pub open spec fn field(self, key: Seq<char>) -> Option<JsonModel> {
        match self {
            JsonModel::Object(es) => entries_get(es, key),
            _ => None,
        }
    }

    /// `as_str`
    pub open spec fn as_str(self) -> Option<Seq<char>> {
        match self {
            JsonModel::Str(s) => Some(s),
            _ => None,
        }
    }

    /// `as_bool`
    pub open spec fn as_bool(self) -> Option<bool> {
        match self {
            JsonModel::Bool(b) => Some(b),
            _ => None,
        }
    }

    /// `as_array`
    pub open spec fn as_array(self) -> Option<Seq<JsonModel>> {
        match self {
            JsonModel::Array(a) => Some(a),
            _ => None,
        }
    }

    /// Field lookup followed by `as_str`.
    pub open spec fn field_str(self, key: Seq<char>) -> Option<Seq<char>> {
        match self.field(key) {
            Some(v) => v.as_str(),
            None => None,
        }
    }

    /// Field lookup followed by `as_bool`.
    pub open spec fn field_bool(self, key: Seq<char>) -> Option<bool> {
        match self.field(key) {
            Some(v) => v.as_bool(),
            None => None,
        }
    }

    /// Field lookup followed by `as_array`.
    pub open spec fn field_array(self, key: Seq<char>) -> Option<Seq<JsonModel>> {
        match self.field(key) {
            Some(v) => v.as_array(),
            None => None,
        }
    }
}

pub proof fn lemma_json_models_index(s: Seq<JsonValue>)
    ensures
        json_models(s).len() == s.len(),
        forall|i: int| 0 <= i < s.len() ==> #[trigger] json_models(s)[i] == json_model(s[i]),
    decreases s.len(),
{
    if s.len() > 0 {
        lemma_json_models_index(s.subrange(1, s.len() as int));
    }
}

pub proof fn lemma_entry_models_index(s: Seq<(String, JsonValue)>)
    ensures
        entry_models(s).len() == s.len(),
        forall|i: int|
            0 <= i < s.len() ==> #[trigger] entry_models(s)[i] == (s[i].0@, json_model(s[i].1)),
    decreases s.len(),
{
    if s.len() > 0 {
        lemma_entry_models_index(s.subrange(1, s.len() as int));
    }
}

pub proof fn lemma_json_models_push(s: Seq<JsonValue>, v: JsonValue)
    ensures
        json_models(s.push(v)) == json_models(s).push(json_model(v)),
{
    lemma_json_models_index(s);
    lemma_json_models_index(s.push(v));
    assert(json_models(s.push(v)) =~= json_models(s).push(json_model(v)));
}

pub proof fn lemma_entry_models_push(s: Seq<(String, JsonValue)>, e: (String, JsonValue))
    ensures
        entry_models(s.push(e)) == entry_models(s).push((e.0@, json_model(e.1))),
{
    lemma_entry_models_index(s);
    lemma_entry_models_index(s.push(e));
    assert(entry_models(s.push(e)) =~= entry_models(s).push((e.0@, json_model(e.1))));
}

impl JsonValue {
    /// Look up a field of an object.
    pub fn get(&self, key: &str) -> (r: Option<&JsonValue>)
        ensures
            match r {
                Some(v) => self@.field(key@) == Some(v@),
                None => self@.field(key@) is None,
            },
    {
        match self {
            JsonValue::Object(es) => {
                proof {
                    lemma_entry_models_index(es@);
                }
                let ghost ms = entry_models(es@);
                let mut i: usize = 0;
                assert(ms.skip(0) =~= ms);
                while i < es.len()
                    invariant
                        i <= es.len(),
                        ms == entry_models(es@),
                        ms.len() == es.len(),
                        forall|j: int| 0 <= j < es.len() ==> #[trigger] ms[j] == (es@[j].0@, json_model(es@[j].1)),
                        self@ == JsonModel::Object(ms),
                        entries_get(ms, key@) == entries_get(ms.skip(i as int), key@),
                    decreases es.len() - i,
                {
                    assert(ms.skip(i as int).drop_first() =~= ms.skip(i + 1));
                    assert(ms.skip(i as int)[0] == ms[i as int]);
                    if crate::text::str_eq(es[i].0.as_str(), key) {
                        return Some(&es[i].1);
                    }
                    i = i + 1;
                }
                None
            },
            _ => None,
        }
    }

    /// The content of a string value.
    pub fn as_str(&self) -> (r: Option<&String>)
        ensures
            match r {
                Some(s) => self@.as_str() == Some(s@),
                None => self@.as_str() is None,
            },
    {
        match self {
            JsonValue::String(s) => Some(s),
            _ => None,
        }
    }

    /// The content of a boolean value.
    pub fn as_bool(&self) -> (r: Option<bool>)
        ensures
            r == self@.as_bool(),
    {
        match self {
            JsonValue::Bool(b) => Some(*b),
            _ => None,
        }
    }

    /// The elements of an array value.
    pub fn as_array(&self) -> (r: Option<&Vec<JsonValue>>)
        ensures
            match r {
                Some(a) => self@.as_array() == Some(json_models(a@)),
                None => self@.as_array() is None,
            },
    {
        match self {
            JsonValue::Array(a) => Some(a),
            _ => None,
        }
    }

    /// A copy of the value.
    pub fn deep_clone(&self) -> (r: JsonValue)
        ensures
            r@ == self@,
        decreases self,
    {
        match self {
            JsonValue::Null => JsonValue::Null,
            JsonValue::Bool(b) => JsonValue::Bool(*b),
            JsonValue::Number(n) => JsonValue::Number(
                match n {
                    JsonNumber::PosInt(u) => JsonNumber::PosInt(*u),
                    JsonNumber::NegInt(i) => JsonNumber::NegInt(*i),
                    JsonNumber::Float(t) => JsonNumber::Float(t.clone()),
                },
            ),
            JsonValue::String(s) => JsonValue::String(s.clone()),
            JsonValue::Array(a) => {
                let mut out: Vec<JsonValue> = Vec::new();
                let mut i: usize = 0;
                assert forall|j: int| 0 <= j < a.len() implies decreases_to!(*self => a@[j]) by {
                    assert(decreases_to!(*self => *a));
                    assert(decreases_to!(*a => a@));
                    assert(decreases_to!(a@ => a@[j]));
                }
                proof {
                    lemma_json_models_index(a@);
                }
                while i < a.len()
                    invariant
                        i <= a.len(),
                        forall|j: int| 0 <= j < a.len() ==> decreases_to!(*self => a@[j]),
                        json_models(out@) == json_models(a@.take(i as int)),
                    decreases a.len() - i,
                {
                    let c = a[i].deep_clone();
                    proof {
                        lemma_json_models_push(out@, c);
                        lemma_json_models_push(a@.take(i as int), a@[i as int]);
                        assert(a@.take(i + 1) =~= a@.take(i as int).push(a@[i as int]));
                    }
                    out.push(c);
                    i = i + 1;
                }
                assert(a@.take(a.len() as int) =~= a@);
                JsonValue::Array(out)
            },
            JsonValue::Object(es) => {
                let mut out: Vec<(String, JsonValue)> = Vec::new();
                let mut i: usize = 0;
                assert forall|j: int| 0 <= j < es.len() implies decreases_to!(*self => es@[j].1) by {
                    assert(decreases_to!(*self => *es));
                    assert(decreases_to!(*es => es@));
                    assert(decreases_to!(es@ => es@[j]));
                    assert(decreases_to!(es@[j] => es@[j].1));
                }
                while i < es.len()
                    invariant
                        i <= es.len(),
                        forall|j: int| 0 <= j < es.len() ==> decreases_to!(*self => es@[j].1),
                        entry_models(out@) == entry_models(es@.take(i as int)),
                    decreases es.len() - i,
                {
                    let k = es[i].0.clone();
                    let c = es[i].1.deep_clone();
                    proof {
                        lemma_entry_models_push(out@, (k, c));
                        lemma_entry_models_push(es@.take(i as int), es@[i as int]);
                        assert(es@.take(i + 1) =~= es@.take(i as int).push(es@[i as int]));
                    }
                    out.push((k, c));
                    i = i + 1;
                }
                assert(es@.take(es.len() as int) =~= es@);
                JsonValue::Object(out)
            },
        }
    }

    /// A string value holding a copy of `s`.
    pub fn text(s: &str) -> (r: JsonValue)
        ensures
            r@ == JsonModel::Str(s@),
    {
        JsonValue::String(s.to_owned())
    }
}

/// Append an entry to the entries of an object under construction.
pub fn object_push(es: &mut Vec<(String, JsonValue)>, key: &str, v: JsonValue)
    ensures
        entry_models(final(es)@) == entry_models(old(es)@).push((key@, v@)),
{
    let ghost before = es@;
    let e = (key.to_owned(), v);
    let ghost ev = e;
    es.push(e);
    proof {
        lemma_entry_models_push(before, ev);
    }
}

impl JsonValue {
    /// A string field of an object.
    pub fn get_str(&self, key: &str) -> (r: Option<&String>)
        ensures
            match r {
                Some(s) => self@.field_str(key@) == Some(s@),
                None => self@.field_str(key@) is None,
            },
    {
        match self.get(key) {
            Some(v) => v.as_str(),
            None => None,
        }
    }

    /// A boolean field of an object.
    pub fn get_bool(&self, key: &str) -> (r: Option<bool>)
        ensures
            r == self@.field_bool(key@),
    {
        match self.get(key) {
            Some(v) => v.as_bool(),
            None => None,
        }
    }

    /// An array field of an object.
    pub fn get_array(&self, key: &str) -> (r: Option<&Vec<JsonValue>>)
        ensures
            match r {
                Some(a) => self@.field_array(key@) == Some(json_models(a@)),
                None => self@.field_array(key@) is None,
            },
    {
        match self.get(key) {
            Some(v) => v.as_array(),
            None => None,
        }
    }
}

/// Index of the first entry with the given key.
pub open spec fn entry_index(es: Seq<(Seq<char>, JsonModel)>, key: Seq<char>) -> Option<int>
    decreases es.len(),
{
    if es.len() == 0 {
        None
    } else if es[0].0 == key {
        Some(0)
    } else {
        match entry_index(es.drop_first(), key) {
            Some(i) => Some(i + 1),
            None => None,
        }
    }
}

pub proof fn lemma_entry_index(es: Seq<(Seq<char>, JsonModel)>, key: Seq<char>)
    ensures
        match entry_index(es, key) {
            Some(i) => 0 <= i < es.len() && es[i].0 == key && forall|j: int| 0 <= j < i ==> es[j].0 != key,
            None => forall|j: int| 0 <= j < es.len() ==> es[j].0 != key,
        },
        match entry_index(es, key) {
            Some(i) => entries_get(es, key) == Some(es[i].1),
            None => entries_get(es, key) is None,
        },
    decreases es.len(),
{
    if es.len() > 0 && es[0].0 != key {
        lemma_entry_index(es.drop_first(), key);
        assert forall|j: int| 0 < j < es.len() implies es[j] == es.drop_first()[j - 1] by {}
    }
}

/// Index of the first entry with the given key.
pub fn find_entry(es: &Vec<(String, JsonValue)>, key: &str) -> (r: Option<usize>)
    ensures
        match r {
            Some(i) => entry_index(entry_models(es@), key@) == Some(i as int),
            None => entry_index(entry_models(es@), key@) is None,
        },
{
    proof {
        lemma_entry_models_index(es@);
        lemma_entry_index(entry_models(es@), key@);
    }
    let ghost em = entry_models(es@);
    let mut i: usize = 0;
    while i < es.len()
        invariant
            i <= es.len(),
            em == entry_models(es@),
            em.len() == es.len(),
            forall|j: int| 0 <= j < es.len() ==> #[trigger] em[j] == (es@[j].0@, json_model(es@[j].1)),
            forall|j: int| 0 <= j < i ==> em[j].0 != key@,
            match entry_index(em, key@) {
                Some(x) => 0 <= x < em.len() && em[x].0 == key@ && forall|j: int| 0 <= j < x ==> em[j].0 != key@,
                None => forall|j: int| 0 <= j < em.len() ==> em[j].0 != key@,
            },
        decreases es.len() - i,
    {
        if crate::text::str_eq(es[i].0.as_str(), key) {
            assert(em[i as int].0 == key@);
            assert(!(entry_index(em, key@) is None));
            return Some(i);
        }
        i = i + 1;
    }
    None
}

impl Clone for JsonValue {
    /// A copy of the value.
    fn clone(&self) -> (r: Self)
        ensures
            r@ == self@,
    {
        self.deep_clone()
    }
}

/// `serde_json::Value`, carried opaquely inside the text wrappers below.
#[verifier::external_type_specification]
#[verifier::external_body]
pub struct ExSerdeValue(serde_json::Value);

/// What `serde_json::from_str::<serde_json::Value>` makes of a text, taken
/// as the library's JSON model; `None` when the text is not JSON.
pub uninterp spec fn json_text_value(text: Seq<char>) -> Option<JsonModel>;

/// The text of the `serde_json::Error` that `serde_json::from_str` gives for
/// a text that is not JSON.
pub uninterp spec fn json_text_error(text: Seq<char>) -> Seq<char>;

/// What `serde_json::to_string` writes for a value taken as a
/// `serde_json::Value`, or the text of its error.
pub uninterp spec fn json_value_text(value: JsonModel) -> Result<Seq<char>, Seq<char>>;

/// Converts a `serde_json::Value` into the library's value, variant for
/// variant (integers that fit `u64` or `i64` as such, other numbers by their
/// text).
#[verifier::external_body]
fn value_of_serde(v: &Value) -> JsonValue {
    match v {
        Value::Null => JsonValue::Null,
        Value::Bool(b) => JsonValue::Bool(*b),
        Value::Number(n) => JsonValue::Number(match (n.as_u64(), n.as_i64()) {
            (Some(u), _) => JsonNumber::PosInt(u),
            (None, Some(i)) => JsonNumber::NegInt(i),
            _ => JsonNumber::Float(n.to_string()),
        }),
        Value::String(s) => JsonValue::String(s.clone()),
        Value::Array(a) => JsonValue::Array(a.iter().map(value_of_serde).collect()),
        Value::Object(o) => JsonValue::Object(o.iter().map(|(k, x)| (k.clone(), value_of_serde(x))).collect()),
    }
}

/// Converts the library's value into a `serde_json::Value`, variant for
/// variant (a number held by its text is read back as that number).
#[verifier::external_body]
fn serde_of_value(v: &JsonValue) -> Value {
    match v {
        JsonValue::Null => Value::Null,
        JsonValue::Bool(b) => Value::Bool(*b),
        JsonValue::Number(JsonNumber::PosInt(u)) => Value::from(*u),
        JsonValue::Number(JsonNumber::NegInt(i)) => Value::from(*i),
        JsonValue::Number(JsonNumber::Float(t)) => serde_json::from_str(t).unwrap_or(Value::Null),
        JsonValue::String(s) => Value::String(s.clone()),
        JsonValue::Array(a) => Value::Array(a.iter().map(serde_of_value).collect()),
        JsonValue::Object(es) => Value::Object(es.iter().map(|(k, x)| (k.clone(), serde_of_value(x))).collect()),
    }
}

/// Parses a text with `serde_json::from_str::<serde_json::Value>`: the
/// value is `json_text_value` of the text, or the error's text is
/// `json_text_error` of it.
#[verifier::external_body]
pub(crate) fn parse_json_text(text: &str) -> (r: Result<JsonValue, String>)
    ensures
        match r {
            Ok(v) => json_text_value(text@) == Some(v@),
            Err(e) => json_text_value(text@) is None && e@ == json_text_error(text@),
        },
{
    match serde_json::from_str::<Value>(text) {
        Ok(v) => Ok(value_of_serde(&v)),
        Err(e) => Err(e.to_string()),
    }
}

/// Writes a value with `serde_json::to_string`: the result is
/// `json_value_text` of the value.
#[verifier::external_body]
pub(crate) fn write_json_text(value: &JsonValue) -> (r: Result<String, String>)
    ensures
        match r {
            Ok(s) => json_value_text(value@) == Ok::<Seq<char>, Seq<char>>(s@),
            Err(e) => json_value_text(value@) == Err::<Seq<char>, Seq<char>>(e@),
        },
{
    serde_json::to_string(&serde_of_value(value)).map_err(|e| e.to_string())
}

} // verus!
