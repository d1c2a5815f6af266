//! JSON values of `serde_json`, carried through the library as opaque payloads.
use vstd::prelude::*;

verus! {

/// `serde_json::Value`, declared so that library types can hold JSON payloads.
#[verifier::external_type_specification]
#[verifier::external_body]
pub struct ExJsonValue(serde_json::Value);

/// `serde_json::Value::clone` (derived): the copy equals the original.
pub assume_specification[ <serde_json::Value as Clone>::clone ](v: &serde_json::Value) -> (r: serde_json::Value)
    ensures
        r == *v,
;

/// Whether a JSON value is `null`, as `serde_json::Value::is_null` reports it.
pub uninterp spec fn json_is_null(v: serde_json::Value) -> bool;

/// Whether a JSON value is an object, as `serde_json::Value::is_object` reports it.
pub uninterp spec fn json_is_object(v: serde_json::Value) -> bool;

/// `serde_json::Value::Null`: a value that `is_null` reports as null.
#[verifier::external_body]
pub(crate) fn json_null() -> (r: serde_json::Value)
    ensures
        json_is_null(r),
{
    serde_json::Value::Null
}

/// `serde_json::Value::is_null`.
#[verifier::external_body]
pub(crate) fn is_null(v: &serde_json::Value) -> (r: bool)
    ensures
        r == json_is_null(*v),
{
    v.is_null()
}

/// `serde_json::Value::is_object`.
#[verifier::external_body]
pub(crate) fn is_object(v: &serde_json::Value) -> (r: bool)
    ensures
        r == json_is_object(*v),
{
    v.is_object()
}

} // verus!

verus! {

/// The text of a JSON string value, as `serde_json::Value::as_str` gives it
/// (`None` for any other kind of value).
pub uninterp spec fn json_as_string(v: serde_json::Value) -> Option<Seq<char>>;

/// The boolean of a JSON boolean value, as `serde_json::Value::as_bool` gives it.
pub uninterp spec fn json_as_bool(v: serde_json::Value) -> Option<bool>;

/// The items of a JSON array, as `serde_json::Value::as_array` gives them.
pub uninterp spec fn json_items(v: serde_json::Value) -> Option<Seq<serde_json::Value>>;

/// The entries of a JSON object in the map's iteration order, as
/// `serde_json::Value::as_object` gives them.
pub uninterp spec fn json_entries(v: serde_json::Value) -> Option<Seq<(Seq<char>, serde_json::Value)>>;

/// The compact JSON text of a value, as `serde_json::Value`'s `Display` writes it.
pub uninterp spec fn json_text(v: serde_json::Value) -> Seq<char>;

/// The JSON object built by inserting these entries in order into a new
/// `serde_json::Map` (a later entry replaces an earlier one with the same key).
pub uninterp spec fn json_object_of(entries: Seq<(Seq<char>, serde_json::Value)>) -> serde_json::Value;

/// The JSON string value `serde_json::Value::String` holding this text.
pub uninterp spec fn json_string_of(s: Seq<char>) -> serde_json::Value;

/// The view of a list of entries: each key by its characters.
pub open spec fn entries_view(es: Seq<(String, serde_json::Value)>) -> Seq<(Seq<char>, serde_json::Value)> {
    es.map_values(|e: (String, serde_json::Value)| (e.0@, e.1))
}

/// `serde_json::Value::as_str`, copied into a `String`.
#[verifier::external_body]
pub(crate) fn as_string(v: &serde_json::Value) -> (r: Option<String>)
    ensures
        match r {
            Some(s) => json_as_string(*v) == Some(s@),
            None => json_as_string(*v) is None,
        },
{
    match v.as_str() {
        Some(s) => Some(s.to_owned()),
        None => None,
    }
}

/// `serde_json::Value::as_bool`.
#[verifier::external_body]
pub(crate) fn as_bool(v: &serde_json::Value) -> (r: Option<bool>)
    ensures
        r == json_as_bool(*v),
{
    v.as_bool()
}

/// `serde_json::Value::as_array`, copied.
#[verifier::external_body]
pub(crate) fn array_items(v: &serde_json::Value) -> (r: Option<Vec<serde_json::Value>>)
    ensures
        match r {
            Some(items) => json_items(*v) == Some(items@),
            None => json_items(*v) is None,
        },
{
    match v.as_array() {
        Some(items) => Some(items.clone()),
        None => None,
    }
}

/// `serde_json::Value::as_object`, its entries taken in the map's iteration
/// order (`serde_json::Map::into_iter` of a copy).
#[verifier::external_body]
pub(crate) fn object_entries(v: &serde_json::Value) -> (r: Option<Vec<(String, serde_json::Value)>>)
    ensures
        match r {
            Some(es) => json_entries(*v) == Some(entries_view(es@)),
            None => json_entries(*v) is None,
        },
{
    match v.as_object() {
        Some(map) => Some(map.clone().into_iter().collect()),
        None => None,
    }
}

/// `serde_json::Value`'s `Display`: compact JSON text.
#[verifier::external_body]
pub(crate) fn to_text(v: &serde_json::Value) -> (r: String)
    ensures
        r@ == json_text(*v),
{
    v.to_string()
}

/// A `serde_json::Map` collected from the entries in order (its `FromIterator`,
/// where a later entry replaces an earlier one with the same key), wrapped in
/// `serde_json::Value::Object`.
#[verifier::external_body]
pub(crate) fn object_from(entries: Vec<(String, serde_json::Value)>) -> (r: serde_json::Value)
    ensures
        r == json_object_of(entries_view(entries@)),
{
    serde_json::Value::Object(entries.into_iter().collect())
}

/// `serde_json::Value::String`: a string value, whose `as_str` is the text.
#[verifier::external_body]
pub(crate) fn string_value(s: &str) -> (r: serde_json::Value)
    ensures
        r == json_string_of(s@),
        json_as_string(r) == Some(s@),
{
    serde_json::Value::String(s.to_owned())
}

/// The JSON boolean value `serde_json::Value::Bool` holding `b`.
pub uninterp spec fn json_bool_of(b: bool) -> serde_json::Value;

/// The JSON value of an optional string: `serde_json::Value::String` of the
/// text, or `serde_json::Value::Null`.
pub uninterp spec fn json_opt_string_of(o: Option<Seq<char>>) -> serde_json::Value;

/// `serde_json::Value::Bool`: a boolean value, whose `as_bool` is `b`.
#[verifier::external_body]
pub(crate) fn bool_value(b: bool) -> (r: serde_json::Value)
    ensures
        r == json_bool_of(b),
        json_as_bool(r) == Some(b),
{
    serde_json::Value::Bool(b)
}

/// `serde_json::Value::String` of the text, or `serde_json::Value::Null`.
#[verifier::external_body]
pub(crate) fn opt_string_value(o: &Option<String>) -> (r: serde_json::Value)
    ensures
        r == json_opt_string_of(crate::text::opt_view(*o)),
{
    match o {
        Some(s) => serde_json::Value::String(s.clone()),
        None => serde_json::Value::Null,
    }
}

} // verus!
