//! Reading one declared argument out of a tool call's opaque JSON argument
//! object. The parse itself is an outside computation; its outcome is named
//! and everything downstream of it is verified against that name.

use vstd::prelude::*;

verus! {

/// What reading the string-valued field `key` of the JSON text `json` yields:
/// `None` when the text is not a JSON object, has no field named `key`, or
/// that field is not a JSON string; otherwise the field's string value.
pub uninterp spec fn json_string_field(json: Seq<char>, key: Seq<char>) -> Option<Seq<char>>;

/// Relies on serde_json::from_str, serde_json::Value::get and
/// serde_json::Value::as_str: parsing a JSON text and reading one string
/// field of the resulting object depend on the text and the key alone.
#[verifier::external_body]
pub fn get_string_field(json: &str, key: &str) -> (r: Option<String>)
    ensures
        r matches Some(v) ==> json_string_field(json@, key@) == Some(v@),
        r is None ==> json_string_field(json@, key@) is None,
{
    let parsed: serde_json::Value = match serde_json::from_str(json) {
        Ok(v) => v,
        Err(_) => return None,
    };
    match parsed.get(key) {
        Some(field) => field.as_str().map(|s| s.to_string()),
        None => None,
    }
}

} // verus!
