//! JSON documents, as `serde_json` reads and writes them.
//!
//! A parsed document is a `serde_json::Value`, which the verifier treats as
//! opaque. Everything this crate knows about a value it learns through the
//! functions below; each of them makes one call into `serde_json`, and its
//! contract is taken on trust. The spec functions without a body name what
//! those calls return.

use crate::text::opt_text;
use vstd::prelude::*;

verus! {

#[verifier::external_type_specification]
#[verifier::external_body]
pub struct ExValue(serde_json::Value);

#[verifier::external_type_specification]
#[verifier::external_body]
pub struct ExError(serde_json::Error);

/// What `serde_json::from_str` makes of a text: the document it holds, or
/// the reason why it is not one.
pub uninterp spec fn json_from_str(text: Seq<char>) -> Result<serde_json::Value, serde_json::Error>;

/// The message that a `serde_json::Error` displays.
pub uninterp spec fn json_error_text(error: serde_json::Error) -> Seq<char>;

/// The member of an object stored under a key; `None` if the value is not an
/// object or has no such member.
pub uninterp spec fn json_member(value: serde_json::Value, key: Seq<char>) -> Option<
    serde_json::Value,
>;

/// The characters of a JSON string; `None` for any other kind of value.
pub uninterp spec fn json_str(value: serde_json::Value) -> Option<Seq<char>>;

/// The integer that a JSON number stands for, if it is a whole number within
/// the range of `i64`; `None` for any other value.
pub uninterp spec fn json_i64(value: serde_json::Value) -> Option<i64>;

/// The elements of a JSON array, in order; `None` for any other kind of value.
pub uninterp spec fn json_items(value: serde_json::Value) -> Option<Seq<serde_json::Value>>;

/// Whether the value is JSON's `null`.
pub uninterp spec fn json_is_null(value: serde_json::Value) -> bool;

/// The JSON string literal for a text: the text between double quotes, with
/// the escapes that `serde_json` writes.
pub uninterp spec fn json_string_literal(text: Seq<char>) -> Seq<char>;

/// Calls `serde_json::from_str` to read one `Value` from the whole text.
/// Trusted: the outcome depends on the text alone.
#[verifier::external_body]
pub(crate) fn parse(text: &str) -> (r: Result<serde_json::Value, serde_json::Error>)
    ensures
        r == json_from_str(text@),
{
    serde_json::from_str(text)
}

/// Calls `to_string` on a `serde_json::Error`, which formats its `Display`.
/// Trusted: the message depends on the error alone.
#[verifier::external_body]
pub(crate) fn error_text(error: &serde_json::Error) -> (r: String)
    ensures
        r@ == json_error_text(*error),
{
    error.to_string()
}

/// Calls `Value::get` with a string key. Trusted: the result is the member
/// that `json_member` names.
#[verifier::external_body]
pub(crate) fn member<'a>(value: &'a serde_json::Value, key: &str) -> (r: Option<&'a serde_json::Value>)
    ensures
        match r {
            Some(found) => json_member(*value, key@) == Some(*found),
            None => json_member(*value, key@) is None,
        },
{
    value.get(key)
}

/// Calls `Value::as_str`. Trusted: the result is the text that `json_str`
/// names.
#[verifier::external_body]
pub(crate) fn as_str<'a>(value: &'a serde_json::Value) -> (r: Option<&'a str>)
    ensures
        match r {
            Some(text) => json_str(*value) == Some(text@),
            None => json_str(*value) is None,
        },
{
    value.as_str()
}

/// Calls `Value::as_i64`. Trusted: the result is the integer that `json_i64`
/// names.
#[verifier::external_body]
pub(crate) fn as_i64(value: &serde_json::Value) -> (r: Option<i64>)
    ensures
        r == json_i64(*value),
{
    value.as_i64()
}

/// Calls `Value::as_array`. Trusted: the result holds the elements that
/// `json_items` names.
#[verifier::external_body]
pub(crate) fn as_array<'a>(value: &'a serde_json::Value) -> (r: Option<&'a Vec<serde_json::Value>>)
    ensures
        match r {
            Some(items) => json_items(*value) == Some(items@),
            None => json_items(*value) is None,
        },
{
    value.as_array()
}

/// Calls `Value::is_null`. Trusted: the answer is what `json_is_null` names.
#[verifier::external_body]
pub(crate) fn is_null(value: &serde_json::Value) -> (r: bool)
    ensures
        r == json_is_null(*value),
{
    value.is_null()
}

/// Writes a text as a JSON string literal, by displaying a
/// `serde_json::Value` that holds it. Trusted: the literal depends on the
/// text alone. Displaying a string value cannot fail.
#[verifier::external_body]
pub(crate) fn string_literal(text: &str) -> (r: String)
    ensures
        r@ == json_string_literal(text@),
{
    serde_json::Value::from(text).to_string()
}

/// A type that can be read from a JSON value of a fixed shape.
pub trait FromJson: Sized + View {
    /// What a value of the right shape holds; `None` for every other value.
    spec fn decoded(value: serde_json::Value) -> Option<Self::V>;

    /// Reads a JSON value: succeeds exactly on the values of the right
    /// shape, with what `decoded` says they hold.
    fn from_json(value: &serde_json::Value) -> (r: Option<Self>)
        ensures
            match r {
                Some(read) => Self::decoded(*value) == Some(read@),
                None => Self::decoded(*value) is None,
            },
    ;
}

/// A shape of which a JSON value can be said why it does not have it.
pub trait FailureShape: FromJson {
    /// Why a value does not have the shape: which member is missing or of
    /// the wrong kind. For a value that has the shape, the empty text.
    spec fn mismatch(value: serde_json::Value) -> Seq<char>;

    /// Says why a value does not have the shape.
    fn explain(value: &serde_json::Value) -> (r: String)
        ensures
            r@ == Self::mismatch(*value),
    ;
}

/// The text of a member that must be there and be a string.
pub open spec fn text_member(value: serde_json::Value, key: Seq<char>) -> Option<Seq<char>> {
    match json_member(value, key) {
        Some(found) => json_str(found),
        None => None,
    }
}

/// The number of a member that must be there and be a whole number within
/// the range of `i32`.
pub open spec fn i32_member(value: serde_json::Value, key: Seq<char>) -> Option<i32> {
    match json_member(value, key) {
        Some(found) => match json_i64(found) {
            Some(n) => if i32::MIN <= n <= i32::MAX {
                Some(n as i32)
            } else {
                None
            },
            None => None,
        },
        None => None,
    }
}

/// The text of a member that may be missing or `null`, which both give
/// `Some(None)`. A member of any other kind than a string is a fault of the
/// shape: `None`.
pub open spec fn optional_text_member(value: serde_json::Value, key: Seq<char>) -> Option<
    Option<Seq<char>>,
> {
    match json_member(value, key) {
        Some(found) => if json_is_null(found) {
            Some(None)
        } else {
            match json_str(found) {
                Some(text) => Some(Some(text)),
                None => None,
            }
        },
        None => Some(None),
    }
}

/// Reads a member that must be a string.
pub fn read_text_member(value: &serde_json::Value, key: &str) -> (r: Option<String>)
    ensures
        opt_text(r) == text_member(*value, key@),
{
    match member(value, key) {
        Some(found) => match as_str(found) {
            Some(text) => Some(text.to_owned()),
            None => None,
        },
        None => None,
    }
}

/// Reads a member that must be a whole number within the range of `i32`.
pub fn read_i32_member(value: &serde_json::Value, key: &str) -> (r: Option<i32>)
    ensures
        r == i32_member(*value, key@),
{
    match member(value, key) {
        Some(found) => match as_i64(found) {
            Some(n) => if -2147483648 <= n && n <= 2147483647 {
                Some(n as i32)
            } else {
                None
            },
            None => None,
        },
        None => None,
    }
}

/// Reads a member that may be missing, `null` or a string.
pub fn read_optional_text_member(value: &serde_json::Value, key: &str) -> (r: Option<
    Option<String>,
>)
    ensures
        match r {
            Some(text) => optional_text_member(*value, key@) == Some(opt_text(text)),
            None => optional_text_member(*value, key@) is None,
        },
{
    match member(value, key) {
        Some(found) => if is_null(found) {
            Some(None)
        } else {
            match as_str(found) {
                Some(text) => Some(Some(text.to_owned())),
                None => None,
            }
        },
        None => Some(None),
    }
}

} // verus!
