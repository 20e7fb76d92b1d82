//! Trusted boundary to the JSON codec (serde_json).
//!
//! The correlation core treats a JSON document as an opaque structured
//! value: it is carried through the logic and handed back to the
//! caller, and only the small wrappers below look inside one.  Each
//! wrapper makes a single call into the codec; its doc comment names
//! the function relied on.
//!
//! Every wrapped call is a pure function of its argument's structure,
//! so each result is given an uninterpreted name over the opaque
//! types (`json_text`, `parsed_document`, `field_of`, ...), and the
//! wrapper's contract says that the call returns the named value.
//! The encoder's and decoder's contracts are then stated over these
//! names.
//!
//! Two structurally equal documents are identified in the verifier's
//! model of the opaque type.  This is consistent because every
//! operation the library performs on such a value depends on its
//! structure alone; for the same reason the object type, backed by an
//! ordered map, is determined by the key-value contents that
//! `obj_model` names.

use vstd::prelude::*;

verus! {

/// `serde_json::Value`: an arbitrary JSON document, opaque to the
/// verifier.
#[verifier::external_type_specification]
#[verifier::external_body]
pub struct ExValue(serde_json::Value);

/// `serde_json::Map`: the key-value storage of a JSON object.
#[verifier::external_type_specification]
#[verifier::external_body]
#[verifier::reject_recursive_types(K)]
#[verifier::reject_recursive_types(V)]
pub struct ExMap<K, V>(serde_json::Map<K, V>);

/// `serde_json::Error`: the codec's decoding or encoding failure.
#[verifier::external_type_specification]
#[verifier::external_body]
pub struct ExError(serde_json::Error);

/// The JSON text that the codec serializes the document `v` to.
pub uninterp spec fn json_text(v: serde_json::Value) -> Seq<char>;

/// The document that the bytes `b` parse as, if they are one JSON
/// document.
pub uninterp spec fn parsed_document(b: Seq<u8>) -> Option<serde_json::Value>;

/// The value under `key` when the document `v` is an object binding
/// that key.
pub uninterp spec fn field_of(v: serde_json::Value, key: Seq<char>) -> Option<serde_json::Value>;

/// The document `v` as an unsigned 64-bit integer, when it is a
/// number representable as one.
pub uninterp spec fn u64_of(v: serde_json::Value) -> Option<u64>;

/// The document `v` as a signed 64-bit integer, when it is a number
/// representable as one.
pub uninterp spec fn i64_of(v: serde_json::Value) -> Option<i64>;

/// The document `v` as text, when it is a JSON string.
pub uninterp spec fn text_of(v: serde_json::Value) -> Option<Seq<char>>;

/// The elements of the document `v`, when it is a JSON array.
pub uninterp spec fn elements_of(v: serde_json::Value) -> Option<Seq<serde_json::Value>>;

/// The key-value contents of a JSON object under construction.
pub uninterp spec fn obj_model(m: serde_json::Map<String, serde_json::Value>) -> Map<
    Seq<char>,
    serde_json::Value,
>;

/// The object document holding exactly the bindings `m`.
pub uninterp spec fn document_of(m: Map<Seq<char>, serde_json::Value>) -> serde_json::Value;

/// The string document holding the text `s`.
pub uninterp spec fn text_document(s: Seq<char>) -> serde_json::Value;

/// The number document holding the integer `n`.
pub uninterp spec fn number_document(n: u64) -> serde_json::Value;

/// The array document holding the elements `items`, in order.
pub uninterp spec fn array_document(items: Seq<serde_json::Value>) -> serde_json::Value;

/// Relies on `serde_json::from_slice::<Value>`: parses bytes as one
/// JSON document — the document they parse as, exactly when they
/// parse as one — or reports why they are not one.
#[verifier::external_body]
pub(crate) fn parse_json(bytes: &[u8]) -> (r: Result<serde_json::Value, serde_json::Error>)
    ensures
        match r {
            Ok(v) => parsed_document(bytes@) == Some(v),
            Err(_) => parsed_document(bytes@) is None,
        },
{
    serde_json::from_slice(bytes)
}

/// Relies on `<serde_json::Error as ToString>::to_string`: the
/// human-readable description of a codec failure.
#[verifier::external_body]
pub(crate) fn error_detail(e: &serde_json::Error) -> String {
    e.to_string()
}

/// Relies on `serde_json::Value::get`: the value under `key` if this
/// document is an object with that key.
#[verifier::external_body]
pub(crate) fn get_field<'a>(v: &'a serde_json::Value, key: &str) -> (r: Option<
    &'a serde_json::Value,
>)
    ensures
        match r {
            Some(f) => field_of(*v, key@) == Some(*f),
            None => field_of(*v, key@) is None,
        },
{
    v.get(key)
}

/// Relies on `serde_json::Value::as_u64`: the document as an unsigned
/// 64-bit integer, if it is a number representable as one.
#[verifier::external_body]
pub(crate) fn value_as_u64(v: &serde_json::Value) -> (r: Option<u64>)
    ensures
        r == u64_of(*v),
{
    v.as_u64()
}

/// Relies on `serde_json::Value::as_i64`: the document as a signed
/// 64-bit integer, if it is a number representable as one.
#[verifier::external_body]
pub(crate) fn value_as_i64(v: &serde_json::Value) -> (r: Option<i64>)
    ensures
        r == i64_of(*v),
{
    v.as_i64()
}

/// Relies on `serde_json::Value::as_str`: the document as owned text,
/// if it is a JSON string.
#[verifier::external_body]
pub(crate) fn value_as_text(v: &serde_json::Value) -> (r: Option<String>)
    ensures
        match r {
            Some(s) => text_of(*v) == Some(s@),
            None => text_of(*v) is None,
        },
{
    match v.as_str() {
        Some(s) => Some(s.to_owned()),
        None => None,
    }
}

/// Relies on `serde_json::Value::as_array`: the elements of the
/// document, if it is a JSON array.
#[verifier::external_body]
pub(crate) fn value_as_array<'a>(v: &'a serde_json::Value) -> (r: Option<
    &'a Vec<serde_json::Value>,
>)
    ensures
        match r {
            Some(items) => elements_of(*v) == Some(items@),
            None => elements_of(*v) is None,
        },
{
    v.as_array()
}

/// Relies on `<serde_json::Value as Clone>::clone`, which returns a
/// structurally identical document; under the structural model of the
/// opaque type, the same value.
#[verifier::external_body]
pub(crate) fn clone_value(v: &serde_json::Value) -> (r: serde_json::Value)
    ensures
        r == *v,
{
    v.clone()
}

/// Relies on `serde_json::Map::new`: an empty JSON object.
#[verifier::external_body]
pub(crate) fn new_object() -> (r: serde_json::Map<String, serde_json::Value>)
    ensures
        forall|k: Seq<char>| !obj_model(r).contains_key(k),
{
    serde_json::Map::new()
}

/// Relies on `serde_json::Map::insert`: the object with `key` bound
/// to `v` on top of the given bindings.
#[verifier::external_body]
pub(crate) fn object_insert(
    m: serde_json::Map<String, serde_json::Value>,
    key: &str,
    v: serde_json::Value,
) -> (r: serde_json::Map<String, serde_json::Value>)
    ensures
        obj_model(r) == obj_model(m).insert(key@, v),
{
    let mut m = m;
    m.insert(key.to_owned(), v);
    m
}

/// Relies on `<serde_json::Value as From<&str>>::from`: the document
/// that is this JSON string.
#[verifier::external_body]
pub(crate) fn text_value(s: &str) -> (r: serde_json::Value)
    ensures
        r == text_document(s@),
{
    serde_json::Value::from(s)
}

/// Relies on `<serde_json::Value as From<u64>>::from`: the document
/// that is this JSON number.
#[verifier::external_body]
pub(crate) fn number_value(n: u64) -> (r: serde_json::Value)
    ensures
        r == number_document(n),
{
    serde_json::Value::from(n)
}

/// Relies on `<serde_json::Value as From<Map>>::from`: the object
/// document holding exactly this object's bindings.  The object is
/// backed by an ordered map, so its contents determine the document.
#[verifier::external_body]
pub(crate) fn object_value(m: serde_json::Map<String, serde_json::Value>) -> (r:
    serde_json::Value)
    ensures
        r == document_of(obj_model(m)),
{
    serde_json::Value::from(m)
}

/// Relies on `<serde_json::Value as From<Vec<Value>>>::from`: the
/// array document holding these elements, in order.
#[verifier::external_body]
pub(crate) fn array_value(items: Vec<serde_json::Value>) -> (r: serde_json::Value)
    ensures
        r == array_document(items@),
{
    serde_json::Value::from(items)
}

/// Relies on `serde_json::to_string`: the JSON text of the document.
/// Serializing a `Value` cannot fail — its object keys are strings
/// and its numbers are finite, and the string writer has no
/// input/output failures — so success is promised.
#[verifier::external_body]
pub(crate) fn to_json_text(v: &serde_json::Value) -> (r: Result<String, serde_json::Error>)
    ensures
        r is Ok,
        r matches Ok(s) ==> s@ == json_text(*v),
{
    serde_json::to_string(v)
}

} // verus!
