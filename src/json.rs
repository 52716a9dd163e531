//! What the library asks of the JSON codec.
use vstd::prelude::*;

verus! {

/// A JSON value, carried through unread.
#[verifier::external_type_specification]
#[verifier::external_body]
pub struct ExJsonValue(serde_json::Value);

/// Why the codec could not read or write a text.
#[verifier::external_type_specification]
#[verifier::external_body]
pub struct ExJsonError(serde_json::Error);

/// A JSON object's members.
#[verifier::external_type_specification]
#[verifier::external_body]
#[verifier::reject_recursive_types(K)]
#[verifier::reject_recursive_types(V)]
pub struct ExJsonMap<K, V>(serde_json::Map<K, V>);

/// The JSON text of the string `s`: quoted, with the characters that need it
/// escaped.
pub uninterp spec fn json_string_text(s: Seq<char>) -> Seq<u8>;

/// The members of the JSON object that the bytes `b` hold, with nothing but
/// whitespace around it; `None` where they hold no such object.
pub uninterp spec fn parsed_object(b: Seq<u8>) -> Option<Map<Seq<char>, serde_json::Value>>;

/// The members of a JSON object, by name.
pub uninterp spec fn object_members(m: serde_json::Map<String, serde_json::Value>) -> Map<Seq<char>, serde_json::Value>;

/// Whether a JSON value is `null`.
pub uninterp spec fn is_json_null(v: serde_json::Value) -> bool;

/// Whether the bytes `b` are one JSON object, with nothing but whitespace
/// around it.
pub open spec fn parses_as_object(b: Seq<u8>) -> bool {
    parsed_object(b) is Some
}

/// Relies on serde_json::to_vec on a `String`: the quoted JSON text of the
/// string, which depends on its characters alone. It fails only for a
/// `Serialize` impl that fails or a map with keys that are not strings, and a
/// `String` is neither.
#[verifier::external_body]
pub(crate) fn encode_str(s: &String) -> (r: Result<Vec<u8>, serde_json::Error>)
    ensures
        r is Ok,
        r matches Ok(t) ==> t@ == json_string_text(s@),
{
    serde_json::to_vec(s)
}

/// Relies on serde_json::to_vec on a `Value`: the JSON text of the value. A
/// `Value`'s own `Serialize` impl does not fail, and its maps have string keys.
#[verifier::external_body]
pub(crate) fn encode_value(v: &serde_json::Value) -> (r: Result<Vec<u8>, serde_json::Error>)
    ensures
        r is Ok,
{
    serde_json::to_vec(v)
}

/// Relies on serde_json::from_slice into a `Map`: it succeeds exactly on the
/// text of one JSON object.
#[verifier::external_body]
pub(crate) fn parse_object(b: &[u8]) -> (r: Result<serde_json::Map<String, serde_json::Value>, serde_json::Error>)
    ensures
        r is Ok <==> parsed_object(b@) is Some,
        r matches Ok(m) ==> parsed_object(b@) == Some(object_members(m)),
{
    serde_json::from_slice(b)
}

/// Relies on serde_json::Value::is_null: whether the value is `null`.
#[verifier::external_body]
pub(crate) fn value_is_null(v: &serde_json::Value) -> (r: bool)
    ensures
        r == is_json_null(*v),
{
    v.is_null()
}

/// Relies on serde_json::Map::remove: takes the member named `k` out of the
/// object, if it has one, and hands it back.
#[verifier::external_body]
pub(crate) fn take_member(m: &mut serde_json::Map<String, serde_json::Value>, k: &str) -> (r: Option<serde_json::Value>)
    ensures
        object_members(*old(m)).contains_key(k@) ==> r == Some(object_members(*old(m))[k@]),
        !object_members(*old(m)).contains_key(k@) ==> r is None,
        object_members(*final(m)) == object_members(*old(m)).remove(k@),
{
    m.remove(k)
}

/// Relies on serde_json::Value::Null: the JSON `null`.
#[verifier::external_body]
pub(crate) fn null_value() -> (r: serde_json::Value) {
    serde_json::Value::Null
}

} // verus!
