//! JSON values of `serde_json`, carried through the library unread, and the
//! few reads of them that the library's logic makes.

use vstd::prelude::*;

verus! {

/// `serde_json::Value`, an opaque JSON document.
#[verifier::external_type_specification]
#[verifier::external_body]
pub struct ExJsonValue(serde_json::Value);

/// The items of the array member `key` of a JSON document, if the document
/// is an object with such a member and the member is an array.
pub uninterp spec fn json_member_items(doc: serde_json::Value, key: Seq<char>) -> Option<Seq<serde_json::Value>>;

/// The members of the object member `key` of a JSON document, in the order
/// the object holds them, if that member is an object.
pub uninterp spec fn json_member_entries(doc: serde_json::Value, key: Seq<char>) -> Option<Seq<(Seq<char>, serde_json::Value)>>;

/// The member `key` of a JSON document, if the document is an object with
/// such a member.
pub uninterp spec fn json_member(doc: serde_json::Value, key: Seq<char>) -> Option<serde_json::Value>;

/// The text of a JSON document, if the document is a string.
pub uninterp spec fn json_text(doc: serde_json::Value) -> Option<Seq<char>>;

/// The document that `text` parses to as JSON, if it is valid JSON.
pub uninterp spec fn json_parsed(text: Seq<char>) -> Option<serde_json::Value>;

/// The JSON `null`, the document the text `null` parses to.
pub open spec fn json_null() -> serde_json::Value {
    json_parsed("null"@)->0
}

/// The JSON string whose text is `s`.
pub uninterp spec fn json_string_value(s: Seq<char>) -> serde_json::Value;

/// The JSON object built by inserting the pairs of `members` in order (a
/// later pair replaces an earlier one with the same key).
pub uninterp spec fn json_object_value(members: Seq<(Seq<char>, serde_json::Value)>) -> serde_json::Value;

/// The JSON text of the string `s`: `s` in double quotes, escaped.
pub uninterp spec fn json_quoted(s: Seq<char>) -> Seq<char>;

/// Reads the items of an array member: `Value::get(key)` followed by
/// `Value::as_array`, cloned.
#[verifier::external_body]
pub(crate) fn member_items(doc: &serde_json::Value, key: &str) -> (r: Option<Vec<serde_json::Value>>)
    ensures
        r matches Some(v) ==> json_member_items(*doc, key@) == Some(v@),
        r is None ==> json_member_items(*doc, key@) is None,
{
    doc.get(key).and_then(|v| v.as_array()).cloned()
}

/// Reads the members of an object member: `Value::get(key)` followed by
/// `Value::as_object`, each member cloned in the map's order.
#[verifier::external_body]
pub(crate) fn member_entries(doc: &serde_json::Value, key: &str) -> (r: Option<Vec<(String, serde_json::Value)>>)
    ensures
        r matches Some(v) ==> json_member_entries(*doc, key@) == Some(
            v@.map_values(|p: (String, serde_json::Value)| (p.0@, p.1)),
        ),
        r is None ==> json_member_entries(*doc, key@) is None,
{
    doc.get(key).and_then(|v| v.as_object()).map(
        |m| m.iter().map(|(k, v)| (k.clone(), v.clone())).collect(),
    )
}

/// Reads a member: `Value::get(key)`, cloned.
#[verifier::external_body]
pub(crate) fn member(doc: &serde_json::Value, key: &str) -> (r: Option<serde_json::Value>)
    ensures
        r == json_member(*doc, key@),
{
    doc.get(key).cloned()
}

/// The text of a string document: `Value::as_str`.
#[verifier::external_body]
pub(crate) fn text_of(doc: &serde_json::Value) -> (r: Option<String>)
    ensures
        r matches Some(t) ==> json_text(*doc) == Some(t@),
        r is None ==> json_text(*doc) is None,
{
    doc.as_str().map(|s| s.to_string())
}

/// Parses JSON text: `serde_json::from_str::<Value>`, its error dropped.
#[verifier::external_body]
pub(crate) fn parse_json(text: &str) -> (r: Option<serde_json::Value>)
    ensures
        r == json_parsed(text@),
{
    serde_json::from_str::<serde_json::Value>(text).ok()
}

/// A JSON string: `Value::String`.
#[verifier::external_body]
pub(crate) fn string_value(s: String) -> (r: serde_json::Value)
    ensures
        r == json_string_value(s@),
{
    serde_json::Value::String(s)
}

/// A JSON object: a `serde_json::Map` collected from the pairs in order,
/// wrapped in `Value::Object`.
#[verifier::external_body]
pub(crate) fn object_value(members: Vec<(String, serde_json::Value)>) -> (r: serde_json::Value)
    ensures
        r == json_object_value(members@.map_values(|p: (String, serde_json::Value)| (p.0@, p.1))),
{
    serde_json::Value::Object(members.into_iter().collect())
}

/// The JSON `null`: `Value::Null`, the document the text `null` parses to.
/// It is no string and no object, so it has no text and no members.
#[verifier::external_body]
pub(crate) fn null_value() -> (r: serde_json::Value)
    ensures
        json_parsed("null"@) == Some(r),
        json_text(r) is None,
        forall|k: Seq<char>| #[trigger] json_member(r, k) is None,
        forall|k: Seq<char>| #[trigger] json_member_items(r, k) is None,
        forall|k: Seq<char>| #[trigger] json_member_entries(r, k) is None,
{
    serde_json::Value::Null
}

/// The JSON text of a string: `serde_json::to_string` on a `&str`, which
/// cannot fail. Only `"`, `\` and the control characters below U+0020 are
/// escaped, so a text without them comes back in plain double quotes.
#[verifier::external_body]
pub(crate) fn quoted(s: &str) -> (r: String)
    ensures
        r@ == json_quoted(s@),
        (forall|i: int|
            0 <= i < s@.len() ==> #[trigger] s@[i] != '"' && s@[i] != '\\' && s@[i] as u32 >= 0x20)
            ==> r@ == seq!['"'] + s@ + seq!['"'],
{
    serde_json::to_string(s).unwrap_or_default()
}

} // verus!
