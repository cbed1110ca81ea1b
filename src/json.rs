//! Reading members of JSON objects, decoded by `serde_json`.

use serde_json::Value;
use vstd::prelude::*;

verus! {

/// What the library reads under one key of a JSON object.
pub enum JsonEntry {
    /// The input is not one well-formed JSON object.
    Malformed,
    /// The object has no member of that name.
    Absent,
    Text(String),
    Bool(bool),
    /// An object or an array, encoded again as JSON.
    Nested(Vec<u8>),
    /// Any other kind of value (null, number).
    Other,
}

/// The mathematical form of a `JsonEntry`.
pub enum JsonEntryView {
    Malformed,
    Absent,
    Text(Seq<char>),
    Bool(bool),
    Nested(Seq<u8>),
    Other,
}

impl View for JsonEntry {
    type V = JsonEntryView;

    open spec fn view(&self) -> JsonEntryView {
        match self {
            JsonEntry::Malformed => JsonEntryView::Malformed,
            JsonEntry::Absent => JsonEntryView::Absent,
            JsonEntry::Text(t) => JsonEntryView::Text(t@),
            JsonEntry::Bool(b) => JsonEntryView::Bool(*b),
            JsonEntry::Nested(n) => JsonEntryView::Nested(n@),
            JsonEntry::Other => JsonEntryView::Other,
        }
    }
}

/// The member named `key` of the JSON object that `doc` encodes.
pub uninterp spec fn json_member_of(doc: Seq<u8>, key: Seq<char>) -> JsonEntryView;

/// Relies on serde_json::from_slice into a map of values, looked up by
/// `key`; an object or an array found there is encoded again with
/// serde_json::to_vec.
#[verifier::external_body]
pub(crate) fn json_member(doc: &[u8], key: &str) -> (r: JsonEntry)
    ensures
        r@ == json_member_of(doc@, key@),
{
    match serde_json::from_slice::<serde_json::Map<String, Value>>(doc) {
        Err(_) => JsonEntry::Malformed,
        Ok(m) => match m.get(key) {
            None => JsonEntry::Absent,
            Some(Value::String(s)) => JsonEntry::Text(s.clone()),
            Some(Value::Bool(b)) => JsonEntry::Bool(*b),
            Some(v @ (Value::Array(_) | Value::Object(_))) => serde_json::to_vec(v).map_or(JsonEntry::Other, JsonEntry::Nested),
            Some(_) => JsonEntry::Other,
        },
    }
}

} // verus!
