//! JSON values: `serde_json::Value` and `serde_json::Map`, seen as the members
//! of an object.

use serde_json::Value;
use vstd::prelude::*;

verus! {

/// Declares `serde_json::Value`, a JSON value.
#[verifier::external_type_specification]
#[verifier::external_body]
pub struct ExValue(serde_json::Value);

/// Declares `serde_json::Map`, the members of a JSON object.
#[verifier::external_type_specification]
#[verifier::external_body]
#[verifier::reject_recursive_types(K)]
#[verifier::reject_recursive_types(V)]
pub struct ExObject<K, V>(serde_json::Map<K, V>);

/// Declares `serde_json::Error`, which says why something is no JSON.
#[verifier::external_type_specification]
#[verifier::external_body]
pub struct ExError(serde_json::Error);

/// The members of a `serde_json::Map`: the text of each that is a string,
/// nothing for the others.
pub uninterp spec fn members(m: serde_json::Map<String, serde_json::Value>) -> Map<
    Seq<char>,
    Option<Seq<char>>,
>;

/// The members of a `serde_json::Value` that is an object, in the same way;
/// none for any other value.
pub uninterp spec fn value_members(v: serde_json::Value) -> Map<Seq<char>, Option<Seq<char>>>;

/// The members of an object that has none.
pub open spec fn no_members() -> Map<Seq<char>, Option<Seq<char>>> {
    Map::empty()
}

/// `serde_json::Map::new` makes an object without members.
#[verifier::external_body]
pub(crate) fn new_object() -> (m: serde_json::Map<String, serde_json::Value>)
    ensures
        members(m) == no_members(),
{
    serde_json::Map::new()
}

/// `serde_json::Map::insert` with a `serde_json::Value::String` sets a member
/// to a string, in place of what it was before.
#[verifier::external_body]
pub(crate) fn insert_text(
    m: &mut serde_json::Map<String, serde_json::Value>,
    key: &str,
    text: &str,
)
    ensures
        members(*final(m)) == members(*old(m)).insert(key@, Some(text@)),
{
    m.insert(key.to_owned(), serde_json::Value::String(text.to_owned()));
}

/// `serde_json::Value::Object` makes a value of an object's members.
#[verifier::external_body]
pub(crate) fn object(m: serde_json::Map<String, serde_json::Value>) -> (v: serde_json::Value)
    ensures
        value_members(v) == members(m),
{
    serde_json::Value::Object(m)
}

/// What a `serde_json::Deserializer` over bytes finds first: nothing if there
/// is only white space, an error if no value stands there, else the value's
/// members and where the value ends.
pub uninterp spec fn first_value(data: Seq<u8>) -> Option<
    Result<(Map<Seq<char>, Option<Seq<char>>>, usize), ()>,
>;

/// `serde_json::StreamDeserializer::next`, over bytes, reads one value off the
/// front; `byte_offset` then tells where it ends, which is within the bytes.
#[verifier::external_body]
pub(crate) fn read_first(data: &[u8]) -> (r: Option<
    Result<(serde_json::Value, usize), serde_json::Error>,
>)
    ensures
        match (r, first_value(data@)) {
            (None, None) => true,
            (Some(Err(_)), Some(Err(_))) => true,
            (Some(Ok(found)), Some(Ok(named))) => found.1 <= data@.len() && named == (
                value_members(found.0),
                found.1,
            ),
            _ => false,
        },
{
    let mut stream = serde_json::Deserializer::from_slice(data).into_iter::<Value>();
    let first = stream.next();
    let end = stream.byte_offset();
    first.map(|r| r.map(|v| (v, end)))
}

/// What `serde_json::from_str` makes of a text: a value's members, or the
/// message of an error.
pub uninterp spec fn text_value(s: Seq<char>) -> Result<
    Map<Seq<char>, Option<Seq<char>>>,
    Seq<char>,
>;

/// `serde_json::from_str` reads a text that is one JSON value.
#[verifier::external_body]
pub(crate) fn read_text(s: &str) -> (r: Result<serde_json::Value, String>)
    ensures
        match (r, text_value(s@)) {
            (Ok(v), Ok(named)) => value_members(v) == named,
            (Err(e), Err(named)) => e@ == named,
            _ => false,
        },
{
    serde_json::from_str::<Value>(s).map_err(|e| e.to_string())
}

} // verus!
