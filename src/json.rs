//! The JSON values that the feed carries, with a mathematical view and the
//! object operations the envelope and classification logic rely on.
use vstd::prelude::*;
use crate::text::str_eq;

verus! {

/// A parsed JSON document.
///
/// Numbers keep what the logic reads from them: a non-negative integer that
/// fits in `u64`, a negative one that fits in `i64`, and any other number as
/// its text.
#[derive(Debug, PartialEq)]
pub enum JsonValue {
    Null,
    Bool(bool),
    UInt(u64),
    Int(i64),
    Decimal(String),
    Str(String),
    Array(Vec<JsonValue>),
    Object(Vec<(String, JsonValue)>),
}

/// The mathematical model of a [`JsonValue`]: an object is the sequence of its
/// entries in order.
pub ghost enum Json {
    Null,
    Bool(bool),
    UInt(u64),
    Int(i64),
    Decimal(Seq<char>),
    Str(Seq<char>),
    Array(Seq<Json>),
    Object(Seq<(Seq<char>, Json)>),
}

pub open spec fn view_json(v: JsonValue) -> Json
    decreases v,
{
    match v {
        JsonValue::Null => Json::Null,
        JsonValue::Bool(b) => Json::Bool(b),
        JsonValue::UInt(n) => Json::UInt(n),
        JsonValue::Int(n) => Json::Int(n),
        JsonValue::Decimal(s) => Json::Decimal(s@),
        JsonValue::Str(s) => Json::Str(s@),
        JsonValue::Array(items) => Json::Array(
            Seq::new(
                items@.len(),
                |i: int|
                    if 0 <= i < items@.len() {
                        view_json(items@[i])
                    } else {
                        Json::Null
                    },
            ),
        ),
        JsonValue::Object(entries) => Json::Object(
            Seq::new(
                entries@.len(),
                |i: int|
                    if 0 <= i < entries@.len() {
                        (entries@[i].0@, view_json(entries@[i].1))
                    } else {
                        (Seq::empty(), Json::Null)
                    },
            ),
        ),
    }
}

impl View for JsonValue {
    type V = Json;

    open spec fn view(&self) -> Json {
        view_json(*self)
    }
}

/// The model of a sequence of array items.
pub open spec fn items_view(s: Seq<JsonValue>) -> Seq<Json> {
    Seq::new(s.len(), |i: int| view_json(s[i]))
}

/// The model of a sequence of object entries.
pub open spec fn entries_view(s: Seq<(String, JsonValue)>) -> Seq<(Seq<char>, Json)> {
    Seq::new(s.len(), |i: int| (s[i].0@, view_json(s[i].1)))
}

pub proof fn lemma_array_view(items: Vec<JsonValue>)
    ensures
        JsonValue::Array(items)@ == Json::Array(items_view(items@)),
{
    assert(items_view(items@) =~= match JsonValue::Array(items)@ {
        Json::Array(s) => s,
        _ => Seq::empty(),
    });
}

pub proof fn lemma_object_view(entries: Vec<(String, JsonValue)>)
    ensures
        JsonValue::Object(entries)@ == Json::Object(entries_view(entries@)),
{
    assert(entries_view(entries@) =~= match JsonValue::Object(entries)@ {
        Json::Object(s) => s,
        _ => Seq::empty(),
    });
}

/// `i` is the first position of `key` among the entries.
pub open spec fn key_at(es: Seq<(Seq<char>, Json)>, key: Seq<char>, i: int) -> bool {
    &&& 0 <= i < es.len()
    &&& es[i].0 == key
    &&& forall|j: int| 0 <= j < i ==> es[j].0 != key
}

/// The first position of `key` among the entries, if it occurs.
pub open spec fn first_index(es: Seq<(Seq<char>, Json)>, key: Seq<char>) -> Option<int> {
    if exists|i: int| key_at(es, key, i) {
        Some(choose|i: int| key_at(es, key, i))
    } else {
        None
    }
}

/// The value of field `key` of an object's entries (its first occurrence).
pub open spec fn field(es: Seq<(Seq<char>, Json)>, key: Seq<char>) -> Option<Json> {
    match first_index(es, key) {
        Some(i) => Some(es[i].1),
        None => None,
    }
}

/// Field `key` of a JSON value; nothing when the value is not an object.
pub open spec fn get(j: Json, key: Seq<char>) -> Option<Json> {
    match j {
        Json::Object(es) => field(es, key),
        _ => None,
    }
}

/// The entries with field `key` set to `val`: its first occurrence is
/// replaced in place, or the field is added at the end.
pub open spec fn set_field(es: Seq<(Seq<char>, Json)>, key: Seq<char>, val: Json) -> Seq<
    (Seq<char>, Json),
> {
    match first_index(es, key) {
        Some(i) => es.update(i, (key, val)),
        None => es.push((key, val)),
    }
}

pub proof fn lemma_key_at_first(es: Seq<(Seq<char>, Json)>, key: Seq<char>, i: int)
    requires
        key_at(es, key, i),
    ensures
        first_index(es, key) == Some(i),
{
    let k = choose|k: int| key_at(es, key, k);
    assert(key_at(es, key, k));
    if k < i {
        assert(es[k].0 != key);
    } else if i < k {
        assert(es[i].0 != key);
    }
}

pub proof fn lemma_no_key(es: Seq<(Seq<char>, Json)>, key: Seq<char>)
    requires
        forall|j: int| 0 <= j < es.len() ==> es[j].0 != key,
    ensures
        first_index(es, key) is None,
{
}

/// When `key` occurs at `j`, it has a first position.
pub proof fn lemma_first_exists(es: Seq<(Seq<char>, Json)>, key: Seq<char>, j: int)
    requires
        0 <= j < es.len(),
        es[j].0 == key,
    ensures
        first_index(es, key) is Some,
    decreases j,
{
    if forall|i: int| 0 <= i < j ==> es[i].0 != key {
        assert(key_at(es, key, j));
    } else {
        let i = choose|i: int| 0 <= i < j && es[i].0 == key;
        lemma_first_exists(es, key, i);
    }
}

/// Setting a field makes it read back, and leaves every other field as it was.
pub proof fn lemma_set_field(es: Seq<(Seq<char>, Json)>, key: Seq<char>, val: Json, other: Seq<char>)
    ensures
        field(set_field(es, key, val), key) == Some(val),
        other != key ==> field(set_field(es, key, val), other) == field(es, other),
{
    let r = set_field(es, key, val);
    match first_index(es, key) {
        Some(i) => {
            assert(key_at(es, key, i));
            assert(key_at(r, key, i));
            lemma_key_at_first(r, key, i);
            if other != key {
                match first_index(es, other) {
                    Some(k) => {
                        assert(key_at(es, other, k));
                        assert(key_at(r, other, k));
                        lemma_key_at_first(r, other, k);
                    },
                    None => {
                        if exists|k: int| key_at(r, other, k) {
                            let k = choose|k: int| key_at(r, other, k);
                            assert(k != i);
                            assert(es[k] == r[k]);
                            lemma_first_exists(es, other, k);
                        }
                    },
                }
            }
        },
        None => {
            assert forall|j: int| 0 <= j < es.len() implies es[j].0 != key by {
                if es[j].0 == key {
                    lemma_first_exists(es, key, j);
                }
            }
            assert(key_at(r, key, es.len() as int));
            lemma_key_at_first(r, key, es.len() as int);
            if other != key {
                match first_index(es, other) {
                    Some(k) => {
                        assert(key_at(es, other, k));
                        assert(key_at(r, other, k));
                        lemma_key_at_first(r, other, k);
                    },
                    None => {
                        if exists|k: int| key_at(r, other, k) {
                            let k = choose|k: int| key_at(r, other, k);
                            assert(k < es.len());
                            assert(es[k] == r[k]);
                            lemma_first_exists(es, other, k);
                        }
                    },
                }
            }
        },
    }
}

/// The first position of `key` among an object's entries.
pub fn find_key(entries: &Vec<(String, JsonValue)>, key: &str) -> (r: Option<usize>)
    ensures
        match r {
            Some(i) => first_index(entries_view(entries@), key@) == Some(i as int),
            None => first_index(entries_view(entries@), key@) is None,
        },
{
    let ghost es = entries_view(entries@);
    let mut i: usize = 0;
    while i < entries.len()
        invariant
            es == entries_view(entries@),
            i <= entries@.len(),
            forall|j: int| 0 <= j < i ==> es[j].0 != key@,
        decreases entries@.len() - i,
    {
        if str_eq(entries[i].0.as_str(), key) {
            proof {
                assert(key_at(es, key@, i as int));
                lemma_key_at_first(es, key@, i as int);
            }
            return Some(i);
        }
        i = i + 1;
    }
    proof {
        lemma_no_key(es, key@);
    }
    None
}

impl JsonValue {
    /// Field `key` of this value, when it is an object that has one.
    pub fn get(&self, key: &str) -> (r: Option<&JsonValue>)
        ensures
            match r {
                Some(x) => get(self@, key@) == Some(x@),
                None => get(self@, key@) is None,
            },
    {
        match self {
            JsonValue::Object(entries) => {
                proof {
                    lemma_object_view(*entries);
                }
                match find_key(entries, key) {
                    Some(i) => Some(&entries[i].1),
                    None => None,
                }
            },
            _ => None,
        }
    }

    /// The text of a string value.
    pub fn as_str(&self) -> (r: Option<&str>)
        ensures
            match r {
                Some(s) => self@ == Json::Str(s@),
                None => !(self@ is Str),
            },
    {
        match self {
            JsonValue::Str(s) => Some(s.as_str()),
            _ => None,
        }
    }

    /// The number of a non-negative integer value.
    pub fn as_u64(&self) -> (r: Option<u64>)
        ensures
            match r {
                Some(n) => self@ == Json::UInt(n),
                None => !(self@ is UInt),
            },
    {
        match self {
            JsonValue::UInt(n) => Some(*n),
            _ => None,
        }
    }

    /// The flag of a boolean value.
    pub fn as_bool(&self) -> (r: Option<bool>)
        ensures
            match r {
                Some(b) => self@ == Json::Bool(b),
                None => !(self@ is Bool),
            },
    {
        match self {
            JsonValue::Bool(b) => Some(*b),
            _ => None,
        }
    }

    /// Whether this value is an object.
    pub fn is_object(&self) -> (r: bool)
        ensures
            r == (self@ is Object),
    {
        match self {
            JsonValue::Object(_) => true,
            _ => false,
        }
    }

    /// This object with field `key` set to `val`; any other value comes back
    /// as it was.
    pub fn with_field(self, key: String, val: JsonValue) -> (r: JsonValue)
        ensures
            match self@ {
                Json::Object(es) => r@ == Json::Object(set_field(es, key@, val@)),
                _ => r == self,
            },
    {
        match self {
            JsonValue::Object(mut entries) => {
                let ghost old_entries = entries@;
                proof {
                    lemma_object_view(entries);
                }
                let ghost es = entries_view(entries@);
                match find_key(&entries, key.as_str()) {
                    Some(i) => {
                        let ghost k = key@;
                        let ghost vv = val@;
                        entries.set(i, (key, val));
                        proof {
                            lemma_object_view(entries);
                            assert(entries_view(entries@) =~= es.update(i as int, (k, vv)));
                        }
                    },
                    None => {
                        let ghost k = key@;
                        let ghost vv = val@;
                        entries.push((key, val));
                        proof {
                            lemma_object_view(entries);
                            assert(entries_view(entries@) =~= es.push((k, vv)));
                        }
                    },
                }
                JsonValue::Object(entries)
            },
            other => other,
        }
    }

    /// Field `key` taken out of this object, when it has one.
    pub fn take_field(self, key: &str) -> (r: Option<JsonValue>)
        ensures
            match r {
                Some(x) => get(self@, key@) == Some(x@),
                None => get(self@, key@) is None,
            },
    {
        match self {
            JsonValue::Object(mut entries) => {
                proof {
                    lemma_object_view(entries);
                }
                let ghost es = entries_view(entries@);
                match find_key(&entries, key) {
                    Some(i) => {
                        let (_, x) = entries.remove(i);
                        assert(x@ == es[i as int].1);
                        Some(x)
                    },
                    None => None,
                }
            },
            _ => None,
        }
    }
}

#[verifier::external_type_specification]
#[verifier::external_body]
pub struct ExSerdeJsonValue(serde_json::Value);

/// The document that `serde_json::from_str` reads from a text, in this
/// crate's model; nothing when the text is not one JSON document.
pub uninterp spec fn parsed_json(text: Seq<char>) -> Option<Json>;

/// Relies on `serde_json::from_str::<serde_json::Value>`: parses one JSON
/// document, and fails on anything else.
#[verifier::external_body]
pub(crate) fn parse_json(text: &str) -> (r: Option<JsonValue>)
    ensures
        match r {
            Some(v) => parsed_json(text@) == Some(v@),
            None => parsed_json(text@) is None,
        },
{
    serde_json::from_str::<serde_json::Value>(text).ok().map(from_serde)
}

/// Relies on the variants of `serde_json::Value` and on
/// `serde_json::Number::as_u64`, `as_i64` and `to_string`: moves a parsed
/// document into a [`JsonValue`], node for node. Only `parse_json` calls it.
#[verifier::external_body]
fn from_serde(v: serde_json::Value) -> JsonValue {
    match v {
        serde_json::Value::Null => JsonValue::Null,
        serde_json::Value::Bool(b) => JsonValue::Bool(b),
        serde_json::Value::Number(n) => match (n.as_u64(), n.as_i64()) {
            (Some(u), _) => JsonValue::UInt(u),
            (None, Some(i)) => JsonValue::Int(i),
            _ => JsonValue::Decimal(n.to_string()),
        },
        serde_json::Value::String(s) => JsonValue::Str(s),
        serde_json::Value::Array(a) => JsonValue::Array(a.into_iter().map(from_serde).collect()),
        serde_json::Value::Object(m) => JsonValue::Object(
            m.into_iter().map(|(k, x)| (k, from_serde(x))).collect(),
        ),
    }
}

} // verus!
