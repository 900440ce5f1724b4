//! The configuration object: a JSON value whose inside only `serde_json`
//! knows. What the launcher reads of it goes through the three accessors
//! below, whose contracts are taken on trust.

use serde_json::Value;
use vstd::prelude::*;

verus! {

#[verifier::external_type_specification]
#[verifier::external_body]
pub struct ExValue(serde_json::Value);

/// The member that `v` holds under `key`: `None` where `v` is no JSON object,
/// or an object without that key.
pub uninterp spec fn json_member(v: Value, key: Seq<char>) -> Option<Value>;

/// The elements of `v`, in order: `None` where `v` is no JSON array.
pub uninterp spec fn json_items(v: Value) -> Option<Seq<Value>>;

/// The characters of `v`: `None` where `v` is no JSON string.
pub uninterp spec fn json_text(v: Value) -> Option<Seq<char>>;

/// `serde_json::Value::get` with a string key. It looks the key up where the
/// value is an object and gives `None` for every other value and for a
/// missing key; the contract names what it finds `json_member`.
#[verifier::external_body]
pub(crate) fn member<'a>(v: &'a Value, key: &str) -> (r: Option<&'a Value>)
    ensures
        match r {
            Some(m) => json_member(*v, key@) == Some(*m),
            None => json_member(*v, key@) is None,
        },
{
    v.get(key)
}

/// `serde_json::Value::as_array`. It gives the vector of an array and `None`
/// for every other value; the contract names the elements `json_items`.
#[verifier::external_body]
pub(crate) fn items(v: &Value) -> (r: Option<&Vec<Value>>)
    ensures
        match r {
            Some(elements) => json_items(*v) == Some(elements@),
            None => json_items(*v) is None,
        },
{
    v.as_array()
}

/// `serde_json::Value::as_str`. It gives the text of a string and `None` for
/// every other value; the contract names the text `json_text`.
#[verifier::external_body]
pub(crate) fn text(v: &Value) -> (r: Option<&str>)
    ensures
        match r {
            Some(s) => json_text(*v) == Some(s@),
            None => json_text(*v) is None,
        },
{
    v.as_str()
}

} // verus!
