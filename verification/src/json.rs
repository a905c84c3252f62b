//! A JSON document as a plain tree. The outside JSON parser produces the
//! tree; everything that reads it is verified against the spec functions
//! here.

use vstd::prelude::*;

verus! {

/// A JSON value as a plain tree. Numbers are shown through their `u64`
/// reading, which is all the registry's payloads use; a number outside
/// `u64` carries `None`.
pub enum JsonValue {
    Null,
    Bool(bool),
    Num(Option<u64>),
    Str(String),
    Arr(Vec<JsonValue>),
    Obj(Vec<(String, JsonValue)>),
}

/// The first value under `key` among `entries`, if any. JSON objects from
/// the parser have unique keys, so the first match is the only one.
pub open spec fn spec_lookup(entries: Seq<(String, JsonValue)>, key: Seq<char>) -> Option<
    JsonValue,
>
    decreases entries.len(),
{
    if entries.len() == 0 {
        None
    } else if entries[0].0@ == key {
        Some(entries[0].1)
    } else {
        spec_lookup(entries.drop_first(), key)
    }
}

/// The value under `key` when `t` is an object that has it.
pub open spec fn spec_get(t: JsonValue, key: Seq<char>) -> Option<JsonValue> {
    match t {
        JsonValue::Obj(entries) => spec_lookup(entries@, key),
        _ => None,
    }
}

/// Declares serde_json's JSON tree type so that the conversion below can
/// take a reference to it.
#[verifier::external_type_specification]
#[verifier::external_body]
pub struct ExValue(serde_json::Value);

/// What the outside JSON parser yields on a given text: the document as a
/// [`JsonValue`] tree, or `None` when the text is not well-formed JSON. The
/// result is a function of the text alone.
pub uninterp spec fn json_tree_of(s: Seq<char>) -> Option<JsonValue>;

/// Relies on serde_json::from_str::<serde_json::Value>: it parses the whole
/// text as one JSON document and returns `Err` exactly on malformed JSON;
/// the result depends on the text alone. `tree_of_value` mirrors the tree.
#[verifier::external_body]
pub(crate) fn parse_json(s: &str) -> (r: Option<JsonValue>)
    ensures
        r == json_tree_of(s@),
{
    match serde_json::from_str::<serde_json::Value>(s) {
        Ok(v) => Some(tree_of_value(&v)),
        Err(_) => None,
    }
}

/// Relies on serde_json::Value's six variants: mirrors one node of the tree,
/// numbers through serde_json::Number::as_u64, object entries in the map's
/// own iteration order (ascending by key). Only `parse_json` calls it; the
/// two together are the boundary to the outside parser.
#[verifier::external_body]
fn tree_of_value(v: &serde_json::Value) -> JsonValue {
    match v {
        serde_json::Value::Null => JsonValue::Null,
        serde_json::Value::Bool(b) => JsonValue::Bool(*b),
        serde_json::Value::Number(n) => JsonValue::Num(n.as_u64()),
        serde_json::Value::String(s) => JsonValue::Str(s.clone()),
        serde_json::Value::Array(a) => JsonValue::Arr(a.iter().map(tree_of_value).collect()),
        serde_json::Value::Object(m) => JsonValue::Obj(
            m.iter().map(|(k, w)| (k.clone(), tree_of_value(w))).collect(),
        ),
    }
}

/// Relies on str's `==` (PartialEq): two string slices are equal exactly
/// when their character sequences are.
#[verifier::external_body]
pub(crate) fn str_eq(a: &str, b: &str) -> (r: bool)
    ensures
        r == (a@ == b@),
{
    a == b
}

impl JsonValue {
    /// The value under `key` when `self` is an object that has it.
    pub fn get<'a>(&'a self, key: &str) -> (r: Option<&'a JsonValue>)
        ensures
            match r {
                Some(v) => spec_get(*self, key@) == Some(*v),
                None => spec_get(*self, key@) is None,
            },
    {
        match self {
            JsonValue::Obj(entries) => {
                let n = entries.len();
                let mut i: usize = 0;
                proof {
                    assert(entries@.skip(0) =~= entries@);
                }
                while i < n
                    invariant
                        i <= n,
                        n == entries.len(),
                        *self == JsonValue::Obj(*entries),
                        spec_lookup(entries@, key@) == spec_lookup(
                            entries@.skip(i as int),
                            key@,
                        ),
                    decreases n - i,
                {
                    proof {
                        assert(entries@.skip(i as int)[0] == entries@[i as int]);
                        assert(entries@.skip(i as int).drop_first() =~= entries@.skip(
                            i as int + 1,
                        ));
                    }
                    let e = &entries[i];
                    if str_eq(e.0.as_str(), key) {
                        proof {
                            assert(spec_lookup(entries@.skip(i as int), key@) == Some(
                                entries@[i as int].1,
                            ));
                        }
                        return Some(&e.1);
                    }
                    i = i + 1;
                }
                None
            },
            _ => None,
        }
    }
}

} // verus!
