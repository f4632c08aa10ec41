//! The JSON values that the daemon protocol reads and writes, through
//! `serde_json`. Values travel as their JSON text; the library never holds
//! a `serde_json::Value` itself.

use vstd::prelude::*;

verus! {

/// A JSON scalar that a command message carries as a member value.
#[derive(Debug, Clone, PartialEq)]
pub enum JsonScalar {
    Str(String),
    Bool(bool),
    Null,
}

/// The mathematical value of a [`JsonScalar`].
pub enum JsonScalarView {
    Str(Seq<char>),
    Bool(bool),
    Null,
}

impl View for JsonScalar {
    type V = JsonScalarView;

    open spec fn view(&self) -> JsonScalarView {
        match self {
            JsonScalar::Str(s) => JsonScalarView::Str(s@),
            JsonScalar::Bool(b) => JsonScalarView::Bool(*b),
            JsonScalar::Null => JsonScalarView::Null,
        }
    }
}

/// The members of an object under construction, as mathematical values.
pub open spec fn members_view(fields: Seq<(String, JsonScalar)>) -> Seq<(Seq<char>, JsonScalarView)> {
    fields.map_values(|f: (String, JsonScalar)| (f.0@, f.1@))
}

/// Whether `serde_json` parses `text` as a JSON value.
pub uninterp spec fn json_parses(text: Seq<char>) -> bool;

/// The compact JSON text of the member `key` of the object that `text`
/// holds; `None` when `text` is no JSON object or has no such member.
pub uninterp spec fn json_member(text: Seq<char>, key: Seq<char>) -> Option<Seq<char>>;

/// The string that the JSON text `text` holds, if it holds a string.
pub uninterp spec fn json_str(text: Seq<char>) -> Option<Seq<char>>;

/// The boolean that the JSON text `text` holds, if it holds one.
pub uninterp spec fn json_bool(text: Seq<char>) -> Option<bool>;

/// The compact JSON texts of the items of the array that `text` holds,
/// if it holds an array.
pub uninterp spec fn json_array(text: Seq<char>) -> Option<Seq<Seq<char>>>;

/// The compact JSON text of the object with the given members.
pub uninterp spec fn json_object(members: Seq<(Seq<char>, JsonScalarView)>) -> Seq<char>;

/// Calls `serde_json::from_str::<serde_json::Value>` and reports whether it
/// succeeded. The contract names the answer `json_parses(text)` and says
/// nothing more of it.
#[verifier::external_body]
pub(crate) fn parse_succeeds(text: &str) -> (r: bool)
    ensures
        r == json_parses(text@),
{
    serde_json::from_str::<serde_json::Value>(text).is_ok()
}

/// Parses `text` with `serde_json::from_str::<serde_json::Value>`, reads
/// the member `key` with `Value::get` and renders it with `Value`'s
/// `Display` (compact JSON). The contract names the result
/// `json_member(text, key)`.
#[verifier::external_body]
pub(crate) fn member_text(text: &str, key: &str) -> (r: Option<String>)
    ensures
        r.deep_view() == json_member(text@, key@),
{
    match serde_json::from_str::<serde_json::Value>(text) {
        Ok(value) => value.get(key).map(|member| member.to_string()),
        Err(_) => None,
    }
}

/// Parses `text` with `serde_json` and reads it with `Value::as_str`. The
/// contract names the result `json_str(text)`.
#[verifier::external_body]
pub(crate) fn string_value(text: &str) -> (r: Option<String>)
    ensures
        r.deep_view() == json_str(text@),
{
    match serde_json::from_str::<serde_json::Value>(text) {
        Ok(value) => value.as_str().map(|s| s.to_string()),
        Err(_) => None,
    }
}

/// Parses `text` with `serde_json` and reads it with `Value::as_bool`. The
/// contract names the result `json_bool(text)`.
#[verifier::external_body]
pub(crate) fn bool_value(text: &str) -> (r: Option<bool>)
    ensures
        r == json_bool(text@),
{
    match serde_json::from_str::<serde_json::Value>(text) {
        Ok(value) => value.as_bool(),
        Err(_) => None,
    }
}

/// Parses `text` with `serde_json`, reads it with `Value::as_array` and
/// renders each item with `Value`'s `Display`. The contract names the
/// result `json_array(text)`.
#[verifier::external_body]
pub(crate) fn array_items(text: &str) -> (r: Option<Vec<String>>)
    ensures
        r.deep_view() == json_array(text@),
{
    match serde_json::from_str::<serde_json::Value>(text) {
        Ok(value) => value.as_array().map(|items| items.iter().map(|item| item.to_string()).collect()),
        Err(_) => None,
    }
}

/// Builds a `serde_json::Map` from the members (each scalar becoming the
/// matching `serde_json::Value` variant) and renders the object with
/// `Value`'s `Display`. The contract names the result `json_object`.
#[verifier::external_body]
pub(crate) fn object_text(members: Vec<(String, JsonScalar)>) -> (r: String)
    ensures
        r@ == json_object(members_view(members@)),
{
    let object: serde_json::Map<String, serde_json::Value> = members.into_iter().map(
        |(key, value)|
            match value {
                JsonScalar::Str(s) => (key, serde_json::Value::String(s)),
                JsonScalar::Bool(b) => (key, serde_json::Value::Bool(b)),
                JsonScalar::Null => (key, serde_json::Value::Null),
            },
    ).collect();
    serde_json::Value::Object(object).to_string()
}

/// The `Debug` rendering of a string: quoted, with escapes.
pub uninterp spec fn debug_text(s: Seq<char>) -> Seq<char>;

/// Renders `s` with `format!("{:?}", s)`. The contract names the result
/// `debug_text(s)`.
#[verifier::external_body]
pub(crate) fn debug_quoted(s: &str) -> (r: String)
    ensures
        r@ == debug_text(s@),
{
    format!("{:?}", s)
}

} // verus!
