//! Trusted access to single fields of JSON documents.
//!
//! The engine never parses JSON itself: the payment provider's token
//! and webhook envelopes are read field by field through serde_json,
//! behind wrappers whose results are named functions of the bytes and
//! the key alone.

use vstd::prelude::*;

verus! {

pub uninterp spec fn json_str_field(body: Seq<u8>, key: Seq<char>) -> Option<Seq<char>>;

pub uninterp spec fn json_i64_field(body: Seq<u8>, key: Seq<char>) -> Option<i64>;

pub uninterp spec fn json_string_list(s: Seq<char>) -> Option<Seq<Seq<char>>>;

/// Relies on serde_json's `from_slice`, `Value::get` and
/// `Value::as_str`: the named top-level string field of the JSON
/// document, a function of the bytes and the key alone; absent when
/// the document does not parse, lacks the key, or holds a non-string
/// there.
#[verifier::external_body]
pub(crate) fn get_json_str_field(body: &[u8], key: &str) -> (r: Option<String>)
    ensures
        r matches Some(s) ==> json_str_field(body@, key@) == Some(s@),
        r is None ==> json_str_field(body@, key@) is None,
{
    match serde_json::from_slice::<serde_json::Value>(body) {
        Ok(v) => match v.get(key) {
            Some(f) => f.as_str().map(|s| s.to_string()),
            None => None,
        },
        Err(_) => None,
    }
}

/// Relies on serde_json's `from_slice`, `Value::get` and
/// `Value::as_i64`: the named top-level integer field of the JSON
/// document, a function of the bytes and the key alone.
#[verifier::external_body]
pub(crate) fn get_json_i64_field(body: &[u8], key: &str) -> (r: Option<i64>)
    ensures
        r == json_i64_field(body@, key@),
{
    match serde_json::from_slice::<serde_json::Value>(body) {
        Ok(v) => match v.get(key) {
            Some(f) => f.as_i64(),
            None => None,
        },
        Err(_) => None,
    }
}

/// Relies on serde_json's `from_str` for `Vec<String>`: the string
/// list a JSON document denotes, a function of the text alone; absent
/// when the text is not a JSON array of strings.
#[verifier::external_body]
pub(crate) fn get_json_string_list(s: &str) -> (r: Option<Vec<String>>)
    ensures
        r matches Some(v) ==> json_string_list(s@) == Some(v.deep_view()),
        r is None ==> json_string_list(s@) is None,
{
    serde_json::from_str::<Vec<String>>(s).ok()
}

} // verus!
