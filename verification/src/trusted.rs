//! The boundary to the outside crates: the system clock and the JSON
//! document type. Every item here is believed, not proved; each doc
//! comment names the outside function relied on.
//!
//! A JSON document is opaque, but what each accessor returns is a
//! function of the document (and key) alone, so each result is given a
//! name: `spec_parsed` for what a byte string parses to, `spec_field`
//! for the value under a key, and `spec_as_*` for the reading of one
//! value as a string, integer or boolean. Contracts downstream speak of
//! the names, which is what lets a dispatcher promise exactly when an
//! argument-dependent call succeeds.

use vstd::prelude::*;

verus! {

#[verifier::external_type_specification]
#[verifier::external_body]
pub struct ExJsonValue(serde_json::Value);

/// The document the byte string parses to, or `None` if it is not one
/// valid JSON document.
pub uninterp spec fn spec_parsed(bytes: Seq<u8>) -> Option<serde_json::Value>;

/// The value under `key` when the document is an object holding it.
pub uninterp spec fn spec_field(v: serde_json::Value, key: Seq<char>) -> Option<
    serde_json::Value,
>;

/// The character content of a JSON string value; `None` for any other
/// kind of value.
pub uninterp spec fn spec_as_string(v: serde_json::Value) -> Option<Seq<char>>;

/// The value of a JSON integer representable as `u64`; `None` otherwise.
pub uninterp spec fn spec_as_u64(v: serde_json::Value) -> Option<u64>;

/// The value of a JSON integer representable as `i64`; `None` otherwise.
pub uninterp spec fn spec_as_i64(v: serde_json::Value) -> Option<i64>;

/// The value of a JSON boolean; `None` for any other kind of value.
pub uninterp spec fn spec_as_bool(v: serde_json::Value) -> Option<bool>;

/// Relies on chrono's `Utc::now` (read the system clock) and
/// `DateTime::timestamp_millis` (milliseconds since the Unix epoch).
/// The value depends on the clock, so nothing is promised of it. Note
/// that `Utc::now` itself panics on a platform whose clock reads before
/// the Unix epoch; that environmental fault has no input to exclude.
#[verifier::external_body]
pub fn now_millis() -> i64 {
    chrono::Utc::now().timestamp_millis()
}

/// Relies on serde_json's `from_slice`: parses one JSON document from the
/// bytes, or reports a parse error, here folded to `None`. The outcome is
/// a function of the bytes alone, named `spec_parsed`.
#[verifier::external_body]
pub fn json_parse(bytes: &[u8]) -> (r: Option<serde_json::Value>)
    ensures
        r matches Some(doc) ==> spec_parsed(bytes@) == Some(doc),
        r is None ==> spec_parsed(bytes@) is None,
{
    serde_json::from_slice::<serde_json::Value>(bytes).ok()
}

/// Relies on serde_json's `Value::get`: looks up `key` in a JSON object,
/// `None` when the value is not an object or the key is absent. The
/// outcome is a function of the document and key alone, named
/// `spec_field`.
#[verifier::external_body]
pub fn json_get<'a>(v: &'a serde_json::Value, key: &str) -> (r: Option<&'a serde_json::Value>)
    ensures
        r matches Some(f) ==> spec_field(*v, key@) == Some(*f),
        r is None ==> spec_field(*v, key@) is None,
{
    v.get(key)
}

/// Relies on serde_json's `Value::as_str` (and `str::to_owned` to copy
/// the borrowed string out): the string content of a JSON string, `None`
/// for any other kind of value; a function of the value alone, named
/// `spec_as_string`.
#[verifier::external_body]
pub fn json_as_string(v: &serde_json::Value) -> (r: Option<String>)
    ensures
        r matches Some(s) ==> spec_as_string(*v) == Some(s@),
        r is None ==> spec_as_string(*v) is None,
{
    match v.as_str() {
        Some(s) => Some(s.to_owned()),
        None => None,
    }
}

/// Relies on serde_json's `Value::as_u64`: the value of a JSON integer
/// representable as u64, `None` otherwise; named `spec_as_u64`.
#[verifier::external_body]
pub fn json_as_u64(v: &serde_json::Value) -> (r: Option<u64>)
    ensures
        r == spec_as_u64(*v),
{
    v.as_u64()
}

/// Relies on serde_json's `Value::as_i64`: the value of a JSON integer
/// representable as i64, `None` otherwise; named `spec_as_i64`.
#[verifier::external_body]
pub fn json_as_i64(v: &serde_json::Value) -> (r: Option<i64>)
    ensures
        r == spec_as_i64(*v),
{
    v.as_i64()
}

/// Relies on serde_json's `Value::as_bool`: the value of a JSON boolean,
/// `None` for any other kind of value; named `spec_as_bool`.
#[verifier::external_body]
pub fn json_as_bool(v: &serde_json::Value) -> (r: Option<bool>)
    ensures
        r == spec_as_bool(*v),
{
    v.as_bool()
}

} // verus!
