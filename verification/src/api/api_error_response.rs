//! The error that the server reports in a body.

use crate::api::api_client::{ApiError, ApiErrorView};
use crate::json::{
    as_str, json_from_str, json_member, json_str, member, read_text_member, text_member,
    FailureShape, FromJson,
};
use vstd::prelude::*;
use vstd::string::*;

verus! {

/// The body with which the server reports an error of its own.
#[derive(Clone, Debug, PartialEq)]
pub struct ApiErrorResponse {
    pub error: String,
}

impl View for ApiErrorResponse {
    type V = Seq<char>;

    open spec fn view(&self) -> Seq<char> {
        self.error@
    }
}

impl FromJson for ApiErrorResponse {
    /// An error body is an object with a string `error`.
    open spec fn decoded(value: serde_json::Value) -> Option<Seq<char>> {
        text_member(value, "error"@)
    }

    fn from_json(value: &serde_json::Value) -> (r: Option<ApiErrorResponse>) {
        match read_text_member(value, "error") {
            Some(error) => Some(ApiErrorResponse { error }),
            None => None,
        }
    }
}

/// What is said of a value without an `error`.
pub const MISSING_ERROR: &'static str = "missing field `error`";

/// What is said of a value whose `error` is no string.
pub const ERROR_NOT_A_STRING: &'static str = "invalid type for field `error`: expected a string";

impl FailureShape for ApiErrorResponse {
    /// A value fails to be an error body because it has no `error`, which
    /// includes every value that is no object, or because its `error` is
    /// no string.
    open spec fn mismatch(value: serde_json::Value) -> Seq<char> {
        match json_member(value, "error"@) {
            Some(found) => match json_str(found) {
                Some(_) => Seq::empty(),
                None => ERROR_NOT_A_STRING@,
            },
            None => MISSING_ERROR@,
        }
    }

    fn explain(value: &serde_json::Value) -> (r: String) {
        match member(value, "error") {
            Some(found) => match as_str(found) {
                Some(_) => String::new(),
                None => String::from_str(ERROR_NOT_A_STRING),
            },
            None => String::from_str(MISSING_ERROR),
        }
    }
}

/// The error that the server reports in a body: the message, if the body
/// is JSON of the shape of an error body, and nothing for any other body,
/// the empty one among them.
pub open spec fn reported_error(body: Seq<char>) -> Option<Seq<char>> {
    match json_from_str(body) {
        Ok(value) => ApiErrorResponse::decoded(value),
        Err(_) => None,
    }
}

impl ApiErrorResponse {
    /// The error of the server as an error of the client, with the same
    /// message.
    pub fn into(self) -> (r: ApiError)
        ensures
            r@ == ApiErrorView::Other(self@),
    {
        ApiError::Other(self.error)
    }
}

} // verus!
