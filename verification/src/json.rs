//! The boundary to the JSON library. A JSON object is kept in that library's
//! own map type; what follows names what such a map holds and gives a
//! contract to each operation that the relay uses on it. Nothing in this file
//! is proved: each contract restates what the library documents.

use vstd::prelude::*;

verus! {

#[verifier::external_type_specification]
#[verifier::external_body]
pub struct ExJsonValue(serde_json::Value);

#[verifier::external_type_specification]
#[verifier::external_body]
pub struct ExJsonError(serde_json::Error);

#[verifier::external_type_specification]
#[verifier::external_body]
#[verifier::reject_recursive_types(K)]
#[verifier::reject_recursive_types(V)]
pub struct ExJsonMap<K, V>(serde_json::Map<K, V>);

/// A JSON object as the JSON library holds it.
pub type JsonObject = serde_json::Map<String, serde_json::Value>;

/// What a member of a JSON object holds, as far as the relay reads it:
/// `null`, an integer that fits 64 signed bits, a string, or anything else.
#[derive(Clone, Debug, PartialEq, Eq)]
pub enum Member {
    Null,
    Integer(i64),
    Text(String),
    Other,
}

/// The mathematical value of a [`Member`].
pub enum MemberView {
    Null,
    Integer(i64),
    Text(Seq<char>),
    Other,
}

impl View for Member {
    type V = MemberView;

    open spec fn view(&self) -> MemberView {
        match self {
            Member::Null => MemberView::Null,
            Member::Integer(i) => MemberView::Integer(*i),
            Member::Text(s) => MemberView::Text(s@),
            Member::Other => MemberView::Other,
        }
    }
}

/// The members of a JSON object, by key.
pub uninterp spec fn json_members(object: JsonObject) -> Map<Seq<char>, MemberView>;

/// The members of the JSON object that a text is read as, where it is read
/// as one.
pub uninterp spec fn json_object(text: Seq<char>) -> Option<Map<Seq<char>, MemberView>>;

/// The compact JSON text of an object with the given members, none of them
/// [`MemberView::Other`].
pub uninterp spec fn json_text(members: Map<Seq<char>, MemberView>) -> Seq<char>;

/// No member is of a kind that the relay does not write.
pub open spec fn all_plain(members: Map<Seq<char>, MemberView>) -> bool {
    forall|key: Seq<char>| members.contains_key(key) ==> !(#[trigger] members[key] is Other)
}

/// `serde_json::from_str` at the type of a JSON object. The text is read as
/// an object or refused; the members of what was read are those that
/// [`json_object`] names for the text.
#[verifier::external_body]
pub(crate) fn parse_object(text: &str) -> (r: Result<JsonObject, serde_json::Error>)
    ensures
        r matches Ok(object) ==> json_object(text@) == Some(json_members(object)),
        r is Err ==> json_object(text@) is None,
{
    serde_json::from_str::<JsonObject>(text)
}

/// `serde_json::Map::get`, with the value found turned into a [`Member`]:
/// none where the object has no such key, else what the member holds.
#[verifier::external_body]
pub(crate) fn member(object: &JsonObject, key: &str) -> (r: Option<Member>)
    ensures
        r is Some <==> json_members(*object).contains_key(key@),
        r matches Some(found) ==> found@ == json_members(*object)[key@],
{
    match object.get(key) {
        None => None,
        Some(serde_json::Value::Null) => Some(Member::Null),
        Some(serde_json::Value::String(text)) => Some(Member::Text(text.clone())),
        Some(serde_json::Value::Number(number)) => match number.as_i64() {
            Some(integer) => Some(Member::Integer(integer)),
            None => Some(Member::Other),
        },
        Some(_) => Some(Member::Other),
    }
}

/// `serde_json::Map::new`: an object without members.
#[verifier::external_body]
pub(crate) fn empty_object() -> (r: JsonObject)
    ensures
        json_members(r) =~= Map::empty(),
{
    serde_json::Map::new()
}

/// `serde_json::Map::insert` of a `null`: the key holds `null` afterwards,
/// whatever it held, and no other member changes.
#[verifier::external_body]
pub(crate) fn put_null(object: &mut JsonObject, key: &str)
    ensures
        json_members(*final(object)) == json_members(*old(object)).insert(key@, MemberView::Null),
{
    object.insert(key.to_owned(), serde_json::Value::Null);
}

/// `serde_json::Map::insert` of an integer: the key holds it afterwards,
/// whatever it held, and no other member changes.
#[verifier::external_body]
pub(crate) fn put_integer(object: &mut JsonObject, key: &str, value: i64)
    ensures
        json_members(*final(object)) == json_members(*old(object)).insert(
            key@,
            MemberView::Integer(value),
        ),
{
    object.insert(key.to_owned(), serde_json::Value::from(value));
}

/// `serde_json::Map::insert` of a string: the key holds it afterwards,
/// whatever it held, and no other member changes.
#[verifier::external_body]
pub(crate) fn put_text(object: &mut JsonObject, key: &str, value: &str)
    ensures
        json_members(*final(object)) == json_members(*old(object)).insert(
            key@,
            MemberView::Text(value@),
        ),
{
    object.insert(key.to_owned(), serde_json::Value::from(value));
}

/// `serde_json::to_string` of an object whose members are `null`, integers
/// and strings. Its documentation names two causes of failure, neither of
/// which such an object can have, so the text is always there; it depends on
/// the members alone, since the object keeps them ordered by key.
#[verifier::external_body]
pub(crate) fn render(object: &JsonObject) -> (r: Result<String, serde_json::Error>)
    requires
        all_plain(json_members(*object)),
    ensures
        r is Ok,
        r matches Ok(text) ==> text@ == json_text(json_members(*object)),
{
    serde_json::to_string(object)
}

} // verus!
