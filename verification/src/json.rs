//! JSON documents, as far as their members are read here.
use serde::Serializer;
use serde_json::Value;
use vstd::prelude::*;

use crate::claims::{self, ClaimValue, ClaimValueView};
use crate::names::{self, NameMap};

verus! {

/// What some bytes are as JSON: what the parser reports when they are no JSON, `None` when they are
/// JSON but no object, else the members of the object.
pub uninterp spec fn json_members(bytes: Seq<u8>) -> Result<
    Option<Map<Seq<char>, ClaimValueView>>,
    Seq<char>,
>;

/// The JSON text of an object with these members, in this order, each a string or `null`.
pub uninterp spec fn json_object(members: Seq<(Seq<char>, Option<Seq<char>>)>) -> Seq<u8>;

/// The members of an optional object.
pub open spec fn optional_members(object: Option<NameMap<ClaimValue>>) -> Option<
    Map<Seq<char>, ClaimValueView>,
> {
    match object {
        Some(object) => Some(claims::claim_values(object@)),
        None => None,
    }
}

/// `serde_json::from_slice` into a `serde_json::Value`, with the members of an object taken apart
/// and an error as text. A number keeps its notation and its `as_u64`; a nested array or object
/// keeps its JSON text. Which document the bytes are is left to [`json_members`].
#[verifier::external_body]
fn read_members(bytes: &[u8]) -> (document: Result<Option<Vec<(String, ClaimValue)>>, String>)
    ensures
        match document {
            Ok(Some(list)) => json_members(bytes@) matches Ok(found) && found == Some(
                claims::claim_values(names::named(list@)),
            ),
            Ok(None) => json_members(bytes@) matches Ok(found) && found is None,
            Err(report) => json_members(bytes@) matches Err(fault) && fault == report@,
        },
{
    let read = |value: Value| match value {
        Value::Null => ClaimValue::Null,
        Value::Bool(flag) => ClaimValue::Bool(flag),
        Value::Number(n) => ClaimValue::Number { text: n.to_string(), unsigned: n.as_u64() },
        Value::String(text) => ClaimValue::Text(text),
        list @ Value::Array(_) => ClaimValue::Json(list.to_string()),
        object @ Value::Object(_) => ClaimValue::Json(object.to_string()),
    };
    match serde_json::from_slice(bytes) {
        Ok(Value::Object(map)) => Ok(Some(map.into_iter().map(|(k, v)| (k, read(v))).collect())),
        Ok(_) => Ok(None),
        Err(error) => Err(error.to_string()),
    }
}

/// Reads a JSON document: `Ok(None)` when it is no object, and what the parser reports when the
/// bytes are no JSON.
pub fn read_object(bytes: &[u8]) -> (document: Result<Option<NameMap<ClaimValue>>, String>)
    ensures
        match document {
            Ok(object) => json_members(bytes@) matches Ok(found) && found == optional_members(
                object,
            ),
            Err(report) => json_members(bytes@) matches Err(fault) && fault == report@,
        },
{
    match read_members(bytes) {
        Ok(Some(list)) => Ok(Some(NameMap::from_entries(list))),
        Ok(None) => Ok(None),
        Err(report) => Err(report),
    }
}

/// Whether `bytes` are JSON and hold an object with these members.
pub open spec fn reads_as(bytes: Seq<u8>, members: Map<Seq<char>, ClaimValueView>) -> bool {
    json_members(bytes) matches Ok(document) && document == Some(members)
}

/// The value of a member that is a string or `null`.
pub open spec fn text_or_null(text: Option<String>) -> ClaimValueView {
    match text {
        Some(text) => ClaimValueView::Text(text@),
        None => ClaimValueView::Null,
    }
}

/// The members in a list of strings and nulls.
pub open spec fn listed_members(list: Seq<(String, Option<String>)>) -> Map<
    Seq<char>,
    ClaimValueView,
> {
    names::named(list).map_values(|text: Option<String>| text_or_null(text))
}

/// The names and texts in a list of strings and nulls.
pub open spec fn listed_texts(list: Seq<(String, Option<String>)>) -> Seq<
    (Seq<char>, Option<Seq<char>>),
> {
    list.map_values(|member: (String, Option<String>)| (member.0@, crate::text::optional(member.1)))
}

/// Whether a name starts with a dollar sign, as the ones do that `serde_json` keeps for itself.
pub open spec fn is_reserved(name: Seq<char>) -> bool {
    name.len() > 0 && name[0] == '$'
}

/// `serde::Serializer::collect_map` of `serde_json::Serializer`: an object with these members, in
/// this order. The bytes depend on the list alone, and `serde_json::from_slice` reads the members
/// back. A repeated name is left out, and so are the names that `serde_json` keeps for itself.
#[verifier::external_body]
pub(crate) fn write_object(list: &Vec<(String, Option<String>)>) -> (bytes: Vec<u8>)
    requires
        forall|i: int, j: int|
            0 <= i < j < list.len() ==> (#[trigger] list@[i]).0@ != (#[trigger] list@[j]).0@,
        forall|i: int| 0 <= i < list.len() ==> !is_reserved((#[trigger] list@[i]).0@),
    ensures
        bytes@ == json_object(listed_texts(list@)),
        reads_as(bytes@, listed_members(list@)),
{
    let mut bytes = Vec::new();
    let members = list.iter().map(|(name, text)| (name, text));
    serde_json::Serializer::new(&mut bytes).collect_map(members).unwrap_or_default();
    bytes
}

/// The text of a string member.
pub open spec fn text_member(
    members: Map<Seq<char>, ClaimValueView>,
    name: Seq<char>,
) -> Option<Seq<char>> {
    if members.contains_key(name) {
        match members[name] {
            ClaimValueView::Text(text) => Some(text),
            _ => None,
        }
    } else {
        None
    }
}

/// The value of a member that is `true` or `false`.
pub open spec fn flag_member(members: Map<Seq<char>, ClaimValueView>, name: Seq<char>) -> Option<
    bool,
> {
    if members.contains_key(name) {
        match members[name] {
            ClaimValueView::Bool(flag) => Some(flag),
            _ => None,
        }
    } else {
        None
    }
}

/// The value of a member that is a whole number below 2^64.
pub open spec fn number_member(members: Map<Seq<char>, ClaimValueView>, name: Seq<char>) -> Option<
    u64,
> {
    if members.contains_key(name) {
        match members[name] {
            ClaimValueView::Number { unsigned, .. } => unsigned,
            _ => None,
        }
    } else {
        None
    }
}

/// A copy of the text of a string member.
pub fn text_of(members: &NameMap<ClaimValue>, name: &str) -> (text: Option<String>)
    ensures
        crate::text::optional(text) == text_member(claims::claim_values(members@), name@),
{
    match members.get(name) {
        Some(ClaimValue::Text(text)) => Some(text.clone()),
        _ => None,
    }
}

/// The value of a member that is `true` or `false`.
pub fn flag_of(members: &NameMap<ClaimValue>, name: &str) -> (flag: Option<bool>)
    ensures
        flag == flag_member(claims::claim_values(members@), name@),
{
    match members.get(name) {
        Some(ClaimValue::Bool(flag)) => Some(*flag),
        _ => None,
    }
}

/// The value of a member that is a whole number below 2^64.
pub fn number_of(members: &NameMap<ClaimValue>, name: &str) -> (number: Option<u64>)
    ensures
        number == number_member(claims::claim_values(members@), name@),
{
    match members.get(name) {
        Some(ClaimValue::Number { unsigned, .. }) => *unsigned,
        _ => None,
    }
}

/// Whether `found` is the string that a member holds, when it holds one.
pub open spec fn is_text_of(
    found: Option<Seq<char>>,
    members: Map<Seq<char>, ClaimValueView>,
    name: Seq<char>,
) -> bool {
    match found {
        Some(text) => members.contains_key(name) && members[name] == ClaimValueView::Text(text),
        None => !members.contains_key(name) || !(members[name] is Text),
    }
}

/// A member is read as what it is, and as nothing else.
pub proof fn members_are_read_by_their_kind(
    members: NameMap<ClaimValue>,
    name: &str,
    text: Option<String>,
    flag: Option<bool>,
    number: Option<u64>,
)
    requires
        call_ensures(text_of, (&members, name), text),
        call_ensures(flag_of, (&members, name), flag),
        call_ensures(number_of, (&members, name), number),
    ensures
        ({
            let said = claims::claim_values(members@);
            &&& is_text_of(crate::text::optional(text), said, name@)
            &&& !said.contains_key(name@) ==> flag is None && number is None
            &&& said.contains_key(name@) ==> match said[name@] {
                ClaimValueView::Bool(truth) => flag == Some(truth) && number is None,
                ClaimValueView::Number { unsigned, .. } => flag is None && number == unsigned,
                _ => flag is None && number is None,
            }
        }),
{
}

} // verus!
