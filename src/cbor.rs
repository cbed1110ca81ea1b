//! Reading CBOR data items, decoded by `serde_cbor`.

use serde_cbor::Value;
use vstd::prelude::*;

verus! {

/// What the library reads at one place of a CBOR item.
pub enum CborEntry {
    /// The input is not one well-formed item of the expected kind.
    Malformed,
    /// The item holds nothing at that place.
    Absent,
    Integer(i128),
    Bytes(Vec<u8>),
    Text(String),
    /// A map or an array, encoded again as CBOR.
    Nested(Vec<u8>),
    /// Any other kind of value (null, boolean, float, tag).
    Other,
}

/// The mathematical form of a `CborEntry`.
pub enum CborEntryView {
    Malformed,
    Absent,
    Integer(int),
    Bytes(Seq<u8>),
    Text(Seq<char>),
    Nested(Seq<u8>),
    Other,
}

impl View for CborEntry {
    type V = CborEntryView;

    open spec fn view(&self) -> CborEntryView {
        match self {
            CborEntry::Malformed => CborEntryView::Malformed,
            CborEntry::Absent => CborEntryView::Absent,
            CborEntry::Integer(i) => CborEntryView::Integer(*i as int),
            CborEntry::Bytes(b) => CborEntryView::Bytes(b@),
            CborEntry::Text(t) => CborEntryView::Text(t@),
            CborEntry::Nested(n) => CborEntryView::Nested(n@),
            CborEntry::Other => CborEntryView::Other,
        }
    }
}

/// The length in bytes of the first CBOR item of `data`, where one decodes.
pub uninterp spec fn cbor_first_item_len(data: Seq<u8>) -> Option<usize>;

/// Whether `data` encodes one CBOR map whose keys are all integers.
pub uninterp spec fn cbor_integer_keyed(data: Seq<u8>) -> bool;

/// The value under the integer key `label` of the CBOR map that `data` encodes.
pub uninterp spec fn cbor_label_entry(data: Seq<u8>, label: int) -> CborEntryView;

/// The value under the text key `key` of the CBOR map that `data` encodes.
pub uninterp spec fn cbor_key_entry(data: Seq<u8>, key: Seq<char>) -> CborEntryView;

/// The number of elements of the CBOR array that `data` encodes.
pub uninterp spec fn cbor_array_len_of(data: Seq<u8>) -> Option<usize>;

/// The element at `index` of the CBOR array that `data` encodes.
pub uninterp spec fn cbor_array_entry(data: Seq<u8>, index: int) -> CborEntryView;

/// Relies on serde_cbor::Deserializer::into_iter and
/// StreamDeserializer::byte_offset: the bytes that the first item took.
#[verifier::external_body]
pub(crate) fn cbor_item_len(data: &[u8]) -> (r: Option<usize>)
    ensures
        r == cbor_first_item_len(data@),
        r matches Some(n) ==> 0 < n <= data@.len(),
{
    let mut items = serde_cbor::Deserializer::from_slice(data).into_iter::<serde_cbor::Value>();
    match items.next() {
        Some(Ok(_)) => Some(items.byte_offset()),
        _ => None,
    }
}

/// Relies on serde_cbor::from_slice into a map keyed by integers: true
/// exactly when `data` decodes that way (a text key, for one, does not).
#[verifier::external_body]
pub(crate) fn cbor_integer_keys(data: &[u8]) -> (r: bool)
    ensures
        r == cbor_integer_keyed(data@),
{
    serde_cbor::from_slice::<std::collections::BTreeMap<i128, Value>>(data).is_ok()
}

/// Relies on serde_cbor::from_slice into a map of values, looked up by the
/// integer key `label`; a map or an array found there is encoded again with
/// serde_cbor::to_vec.
#[verifier::external_body]
pub(crate) fn cbor_label(data: &[u8], label: i64) -> (r: CborEntry)
    ensures
        r@ == cbor_label_entry(data@, label as int),
{
    match serde_cbor::from_slice::<std::collections::BTreeMap<Value, Value>>(data) {
        Err(_) => CborEntry::Malformed,
        Ok(m) => match m.get(&Value::Integer(label as i128)) {
            None => CborEntry::Absent,
            Some(Value::Integer(i)) => CborEntry::Integer(*i),
            Some(Value::Bytes(b)) => CborEntry::Bytes(b.clone()),
            Some(Value::Text(t)) => CborEntry::Text(t.clone()),
            Some(v @ (Value::Array(_) | Value::Map(_))) => serde_cbor::to_vec(v).map_or(CborEntry::Other, CborEntry::Nested),
            Some(_) => CborEntry::Other,
        },
    }
}

/// Relies on serde_cbor::from_slice into a map of values, looked up by the
/// text key `key`; a map or an array found there is encoded again with
/// serde_cbor::to_vec.
#[verifier::external_body]
pub(crate) fn cbor_key(data: &[u8], key: &str) -> (r: CborEntry)
    ensures
        r@ == cbor_key_entry(data@, key@),
{
    match serde_cbor::from_slice::<std::collections::BTreeMap<Value, Value>>(data) {
        Err(_) => CborEntry::Malformed,
        Ok(m) => match m.get(&Value::Text(key.to_string())) {
            None => CborEntry::Absent,
            Some(Value::Integer(i)) => CborEntry::Integer(*i),
            Some(Value::Bytes(b)) => CborEntry::Bytes(b.clone()),
            Some(Value::Text(t)) => CborEntry::Text(t.clone()),
            Some(v @ (Value::Array(_) | Value::Map(_))) => serde_cbor::to_vec(v).map_or(CborEntry::Other, CborEntry::Nested),
            Some(_) => CborEntry::Other,
        },
    }
}

/// Relies on serde_cbor::from_slice into a list of values: its length.
#[verifier::external_body]
pub(crate) fn cbor_array_len(data: &[u8]) -> (r: Option<usize>)
    ensures
        r == cbor_array_len_of(data@),
{
    serde_cbor::from_slice::<Vec<serde_cbor::Value>>(data).ok().map(|items| items.len())
}

/// Relies on serde_cbor::from_slice into a list of values, read at `index`;
/// a map or an array found there is encoded again with serde_cbor::to_vec.
#[verifier::external_body]
pub(crate) fn cbor_array_item(data: &[u8], index: usize) -> (r: CborEntry)
    ensures
        r@ == cbor_array_entry(data@, index as int),
{
    match serde_cbor::from_slice::<Vec<Value>>(data) {
        Err(_) => CborEntry::Malformed,
        Ok(items) => match items.get(index) {
            None => CborEntry::Absent,
            Some(Value::Integer(i)) => CborEntry::Integer(*i),
            Some(Value::Bytes(b)) => CborEntry::Bytes(b.clone()),
            Some(Value::Text(t)) => CborEntry::Text(t.clone()),
            Some(v @ (Value::Array(_) | Value::Map(_))) => serde_cbor::to_vec(v).map_or(CborEntry::Other, CborEntry::Nested),
            Some(_) => CborEntry::Other,
        },
    }
}

} // verus!
