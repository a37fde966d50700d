//! Trusted declarations of, and wrappers around, the outside crates
//! `regex` and `serde_json`.
//!
//! Everything here is believed, not proved: each item's doc comment names
//! the outside function it relies on.

use vstd::prelude::*;

use crate::jsonmodel::jget;
use crate::jsonmodel::JsonView;

verus! {

#[verifier::external_type_specification]
#[verifier::external_body]
pub struct ExRegex(regex::Regex);

#[verifier::external_type_specification]
#[verifier::external_body]
pub struct ExValue(serde_json::Value);

/// Whether `regex::Regex::new` accepts the pattern `p`. Compilation is a
/// pure function of the pattern text, so its outcome is named here and
/// never stated further.
pub uninterp spec fn regex_compiles(p: Seq<char>) -> bool;

/// The text of the error that `regex::Regex::new` reports for a pattern it
/// rejects. The message is a pure function of the pattern text.
pub uninterp spec fn regex_error_of(p: Seq<char>) -> Seq<char>;

/// Whether `serde_json::from_str` accepts the text `s` as a JSON document.
/// Acceptance is a pure function of the text.
pub uninterp spec fn json_parses(s: Seq<char>) -> bool;

/// The model of the document that `serde_json::from_str` reads out of the
/// text `s`; meaningful only when `json_parses(s)` holds. The document is
/// a pure function of the text.
pub uninterp spec fn json_doc_of(s: Seq<char>) -> JsonView;

/// The text of the error that `serde_json::from_str` reports for a text
/// it rejects. The message is a pure function of the text.
pub uninterp spec fn json_error_of(s: Seq<char>) -> Seq<char>;

/// What a `serde_json::Value` holds, as a [`JsonView`]. The accessor
/// wrappers below state how each observation reads this model.
pub uninterp spec fn json_view(v: serde_json::Value) -> JsonView;

/// The models of a vector of JSON values.
pub open spec fn json_views_of(s: Seq<serde_json::Value>) -> Seq<JsonView> {
    s.map_values(|v: serde_json::Value| json_view(v))
}

/// Relies on `regex::Regex::new`: compiles the pattern or reports a
/// deterministic error, and on the `Display` impl of `regex::Error` for the
/// error's text.
#[verifier::external_body]
pub(crate) fn regex_new(pattern: &str) -> (r: Result<regex::Regex, String>)
    ensures
        r is Ok <==> regex_compiles(pattern@),
        r matches Err(m) ==> m@ == regex_error_of(pattern@),
{
    match regex::Regex::new(pattern) {
        Ok(re) => Ok(re),
        Err(e) => Err(e.to_string()),
    }
}

/// Relies on `serde_json::from_str`: turns a text into a JSON value tree or
/// reports a deterministic error, and on the `Display` impl of
/// `serde_json::Error` for the error's text.
#[verifier::external_body]
pub(crate) fn json_from_str(s: &str) -> (r: Result<serde_json::Value, String>)
    ensures
        r is Ok <==> json_parses(s@),
        r matches Ok(v) ==> json_view(v) == json_doc_of(s@),
        r matches Err(m) ==> m@ == json_error_of(s@),
{
    match serde_json::from_str::<serde_json::Value>(s) {
        Ok(v) => Ok(v),
        Err(e) => Err(e.to_string()),
    }
}

/// Relies on `serde_json::Value::as_array`: the element vector exactly when
/// the value is a JSON array.
#[verifier::external_body]
pub(crate) fn json_as_array(v: &serde_json::Value) -> (r: Option<&Vec<serde_json::Value>>)
    ensures
        r is Some <==> json_view(*v) is Arr,
        r matches Some(a) ==> json_view(*v) == JsonView::Arr(json_views_of(a@)),
{
    v.as_array()
}

/// Relies on `serde_json::Value::get`: the field of an object under the
/// given key, `None` when the key is absent or the value is no object.
#[verifier::external_body]
pub(crate) fn json_get<'a>(v: &'a serde_json::Value, key: &str) -> (r: Option<
    &'a serde_json::Value,
>)
    ensures
        r is Some <==> jget(json_view(*v), key@) is Some,
        r matches Some(f) ==> jget(json_view(*v), key@) == Some(json_view(*f)),
{
    v.get(key)
}

/// Relies on `serde_json::Value::as_str`: the text exactly when the value
/// is a JSON string.
#[verifier::external_body]
pub(crate) fn json_as_str(v: &serde_json::Value) -> (r: Option<&str>)
    ensures
        r is Some <==> json_view(*v) is Text,
        r matches Some(s) ==> json_view(*v) == JsonView::Text(s@),
{
    v.as_str()
}

/// Relies on `serde_json::Value::as_bool`: the boolean exactly when the
/// value is a JSON boolean.
#[verifier::external_body]
pub(crate) fn json_as_bool(v: &serde_json::Value) -> (r: Option<bool>)
    ensures
        r is Some <==> json_view(*v) is Bool,
        r matches Some(b) ==> json_view(*v) == JsonView::Bool(b),
{
    v.as_bool()
}

/// Relies on `serde_json::Value::as_u64`: the number exactly when the
/// value is a JSON integer representable as `u64`.
#[verifier::external_body]
pub(crate) fn json_as_u64(v: &serde_json::Value) -> (r: Option<u64>)
    ensures
        r is Some <==> json_view(*v) is UInt,
        r matches Some(n) ==> json_view(*v) == JsonView::UInt(n),
{
    v.as_u64()
}

/// Relies on `serde_json::Value::is_null`: whether the value is JSON
/// `null`.
#[verifier::external_body]
pub(crate) fn json_is_null(v: &serde_json::Value) -> (r: bool)
    ensures
        r == (json_view(*v) is Null),
{
    v.is_null()
}

} // verus!
