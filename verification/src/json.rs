//! Reading JSON request bodies through `serde_json`.
//!
//! The dispatcher needs exactly one question answered about a body: what
//! string, if any, stands under a given key of the JSON object it holds.
//! That answer is a function of the body text and the key alone —
//! parsing is deterministic, a duplicate key resolves to its last value,
//! and the recursion limit is a fixed constant — so it is given a name,
//! `field_of`, and the one trusted wrapper answers with it. Every
//! function that takes the answer apart is verified for every value it
//! could be.
use vstd::prelude::*;

verus! {

/// The string member under `key` of the JSON document `s`: `None` when
/// `s` is not a JSON object, the key is absent, or the member is not a
/// string.
pub uninterp spec fn field_of(s: Seq<char>, key: Seq<char>) -> Option<Seq<char>>;

/// The view of an optional string result.
pub open spec fn opt_string_view(o: Option<String>) -> Option<Seq<char>> {
    match o {
        Some(s) => Some(s@),
        None => None,
    }
}

/// Relies on `serde_json::from_str`, `Value::get` and `Value::as_str`
/// composed: parses `s`, takes the object member under `key`, and reads
/// it as a string. The composition depends on `s` and `key` alone, so
/// its result carries the name `field_of`; nothing more is claimed.
#[verifier::external_body]
pub(crate) fn string_field(s: &str, key: &str) -> (r: Option<String>)
    ensures
        opt_string_view(r) == field_of(s@, key@),
{
    let parsed: Result<serde_json::Value, serde_json::Error> = serde_json::from_str(s);
    match parsed {
        Ok(v) => match v.get(key) {
            Some(m) => m.as_str().map(|t| t.to_owned()),
            None => None,
        },
        Err(_) => None,
    }
}

} // verus!
