//! JSON on the program's standard output, written and read by `serde_json`.

use vstd::prelude::*;

verus! {

/// The text that the JSON serialiser writes for an object with the one
/// member `key`, a string of value `value`.
pub uninterp spec fn json_object_text(key: Seq<char>, value: Seq<char>) -> Seq<char>;

/// The string under `key` of the JSON object that `text` is, as the JSON
/// parser reads it; `None` where `text` is no JSON document, the document is
/// no object, the object has no member `key`, or the member is no string.
pub uninterp spec fn json_string_member(text: Seq<char>, key: Seq<char>) -> Option<Seq<char>>;

/// Trusted: `serde_json::to_string` on a `serde_json::Value::Object` that
/// holds the one member. The text depends on the two arguments alone and is
/// the named one. The serialiser fails only where a key is no string or
/// its writer fails; here the key is a string and it writes to memory, so
/// there is always a text.
#[verifier::external_body]
pub(crate) fn write_object(key: &str, value: &str) -> (r: String)
    ensures
        r@ == json_object_text(key@, value@),
{
    let mut map = serde_json::Map::new();
    map.insert(key.to_string(), serde_json::Value::String(value.to_string()));
    serde_json::to_string(&serde_json::Value::Object(map)).unwrap_or_default()
}

/// Trusted: `serde_json::from_str` into a `serde_json::Value`, then
/// `Value::get` with the key and `Value::as_str`. The outcome depends on the
/// two arguments alone and is the named one.
#[verifier::external_body]
pub(crate) fn read_string_member(text: &str, key: &str) -> (r: Option<String>)
    ensures
        r is Some <==> json_string_member(text@, key@) is Some,
        r is Some ==> r->0@ == json_string_member(text@, key@)->0,
{
    match serde_json::from_str::<serde_json::Value>(text) {
        Ok(value) => match value.get(key) {
            Some(member) => match member.as_str() {
                Some(s) => Some(s.to_string()),
                None => None,
            },
            None => None,
        },
        Err(_) => None,
    }
}

} // verus!
