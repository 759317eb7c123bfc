//! The JSON decoder that the library relies on, and what is taken on trust of
//! it.
//!
//! Decoding is done by `serde_json`. Nothing in this module is proved: each
//! item states, for the rest of the library, what one function of that crate
//! returns. A result that cannot be written down in a few lines is given a
//! name, a specification function without a definition, and the contracts of
//! the library are stated over these names.

use vstd::prelude::*;

verus! {

/// A decoded JSON document, or a part of one. Its contents are known to the
/// library only through the names below.
#[verifier::external_type_specification]
#[verifier::external_body]
pub struct ExValue(serde_json::Value);

/// The error with which `serde_json` refuses a text.
#[verifier::external_type_specification]
#[verifier::external_body]
pub struct ExError(serde_json::Error);

/// What `serde_json::from_str` makes of `text` when asked for a
/// `serde_json::Value`: the document, or the error with which the text is
/// refused.
pub uninterp spec fn json_decoded(text: Seq<char>) -> Result<serde_json::Value, serde_json::Error>;

/// What `serde_json::Value::get` finds in `doc` under the string `key`: the
/// member of that name if `doc` is an object that has one.
pub uninterp spec fn json_member(doc: serde_json::Value, key: Seq<char>) -> Option<
    serde_json::Value,
>;

/// What `serde_json::Value::as_str` gives for `value`: its characters if it is
/// a JSON string.
pub uninterp spec fn json_string(value: serde_json::Value) -> Option<Seq<char>>;

/// What `serde_json::Value::as_i64` gives for `value`: the number if it is a
/// JSON integer that an `i64` can hold.
pub uninterp spec fn json_integer(value: serde_json::Value) -> Option<i64>;

/// The message that `serde_json::Error` displays for `error`.
pub uninterp spec fn json_error_text(error: serde_json::Error) -> Seq<char>;

/// Calls `serde_json::from_str` for a `serde_json::Value`. Trusted: the result
/// depends on the characters of `text` alone, and is the one named by
/// [`json_decoded`].
#[verifier::external_body]
pub(crate) fn decode(text: &str) -> (r: Result<serde_json::Value, serde_json::Error>)
    ensures
        r == json_decoded(text@),
{
    serde_json::from_str::<serde_json::Value>(text)
}

/// Calls `serde_json::Value::get` with a string index. Trusted: the result is
/// the one named by [`json_member`] for `doc` and the characters of `key`.
#[verifier::external_body]
pub(crate) fn member<'a>(doc: &'a serde_json::Value, key: &str) -> (r: Option<
    &'a serde_json::Value,
>)
    ensures
        match r {
            Some(value) => json_member(*doc, key@) == Some(*value),
            None => json_member(*doc, key@) is None,
        },
{
    doc.get(key)
}

/// Trusted: `as_str` returns the characters named by [`json_string`], and
/// nothing where that names nothing.
pub assume_specification<'a>[ serde_json::Value::as_str ](value: &'a serde_json::Value) -> (r:
    Option<&'a str>)
    ensures
        match r {
            Some(s) => json_string(*value) == Some(s@),
            None => json_string(*value) is None,
        },
;

/// Trusted: `as_i64` returns the number named by [`json_integer`].
pub assume_specification[ serde_json::Value::as_i64 ](value: &serde_json::Value) -> (r: Option<
    i64,
>)
    ensures
        r == json_integer(*value),
;

/// Renders `error` with its `Display` impl. Trusted: the text is the one named
/// by [`json_error_text`].
#[verifier::external_body]
pub(crate) fn error_text(error: &serde_json::Error) -> (r: String)
    ensures
        r@ == json_error_text(*error),
{
    error.to_string()
}

} // verus!
