//! The session that the server opens for a user.

use crate::json::{read_text_member, text_member, FromJson};
use vstd::prelude::*;

verus! {

/// An open session: who the user is, and the token that goes with every
/// request made in the user's name.
#[derive(Clone, Debug, PartialEq)]
pub struct Auth {
    pub username: String,
    pub token: String,
}

/// What a session holds, as mathematical values.
pub struct AuthView {
    pub username: Seq<char>,
    pub token: Seq<char>,
}

impl View for Auth {
    type V = AuthView;

    open spec fn view(&self) -> AuthView {
        AuthView { username: self.username@, token: self.token@ }
    }
}

/// The view of an optional session.
pub open spec fn opt_auth(user: Option<Auth>) -> Option<AuthView> {
    match user {
        Some(auth) => Some(auth@),
        None => None,
    }
}

impl FromJson for Auth {
    /// A session is an object with a string `username` and a string `token`.
    open spec fn decoded(value: serde_json::Value) -> Option<AuthView> {
        match (text_member(value, "username"@), text_member(value, "token"@)) {
            (Some(username), Some(token)) => Some(AuthView { username, token }),
            _ => None,
        }
    }

    fn from_json(value: &serde_json::Value) -> (r: Option<Auth>) {
        let username = read_text_member(value, "username");
        let token = read_text_member(value, "token");
        match (username, token) {
            (Some(username), Some(token)) => Some(Auth { username, token }),
            _ => None,
        }
    }
}

} // verus!
