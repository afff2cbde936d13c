//! JSON text, read and written by `serde_json`.
//!
//! Of a JSON value only the members of the top-level object that are strings matter
//! here, so a value is known by the map of these.

use vstd::prelude::*;

verus! {

/// A JSON value as `serde_json` holds it.
#[verifier::external_type_specification]
#[verifier::external_body]
pub struct ExValue(serde_json::Value);

/// The members of an object that are strings, by key. Empty for a value that is not an
/// object.
pub uninterp spec fn string_members(value: serde_json::Value) -> Map<Seq<char>, Seq<char>>;

/// What `serde_json::from_str` reads from a text: nothing where the text is not JSON, else
/// the members of the value that are strings.
pub uninterp spec fn json_string_members(text: Seq<char>) -> Option<Map<Seq<char>, Seq<char>>>;

/// The text of the object with the given members, as `serde_json` writes it.
pub uninterp spec fn json_object_text(members: Seq<(Seq<char>, Seq<char>)>) -> Seq<char>;

/// The map that a list of members stands for. A later member replaces an earlier one of
/// the same key.
pub open spec fn members_map(members: Seq<(Seq<char>, Seq<char>)>) -> Map<Seq<char>, Seq<char>>
    decreases members.len(),
{
    if members.len() == 0 {
        Map::empty()
    } else {
        members_map(members.drop_last()).insert(members.last().0, members.last().1)
    }
}

/// The keys are made of lower-case letters and underscores.
pub open spec fn has_plain_keys(members: Seq<(Seq<char>, Seq<char>)>) -> bool {
    forall|i: int, j: int|
        0 <= i < members.len() && 0 <= j < members[i].0.len() ==> {
            let c = #[trigger] members[i].0[j];
            'a' <= c <= 'z' || c == '_'
        }
}

/// `serde_json::from_str::<Value>`: fails where the text is not JSON. Whether it fails, and
/// which members of the value are strings and what they hold, depends on the text alone.
/// Which texts are JSON is left to the name.
#[verifier::external_body]
pub(crate) fn parse_json(text: &str) -> (res: Option<serde_json::Value>)
    ensures
        match res {
            Some(value) => json_string_members(text@) == Some(string_members(value)),
            None => json_string_members(text@) is None,
        },
{
    serde_json::from_str::<serde_json::Value>(text).ok()
}

/// `serde_json::Value::get` with a string key, the member found being handed out as text by
/// `as_str`: the member of that key if the value is an object that has it and the member is
/// a string.
#[verifier::external_body]
pub(crate) fn string_member(value: &serde_json::Value, key: &str) -> (res: Option<String>)
    ensures
        match res {
            Some(member) => string_members(*value).contains_key(key@)
                && string_members(*value)[key@] == member@,
            None => !string_members(*value).contains_key(key@),
        },
{
    value.get(key).and_then(serde_json::Value::as_str).map(String::from)
}

/// `serde_json::Value::to_string` of the object that `Value::from_iter` collects from the
/// members: the text depends on the members alone, and reading it gives the members back.
/// That is said of plain keys only: keys that start with `$` can have a meaning of their
/// own to `serde_json`.
#[verifier::external_body]
pub(crate) fn object_text(members: Vec<(String, String)>) -> (res: String)
    ensures
        res@ == json_object_text(members.deep_view()),
        has_plain_keys(members.deep_view()) ==> json_string_members(res@) == Some(
            members_map(members.deep_view()),
        ),
{
    serde_json::Value::from_iter(members).to_string()
}

} // verus!
