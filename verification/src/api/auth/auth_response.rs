//! The body with which the server answers a sign-in or a registration.

use crate::api::auth::auth::{Auth, AuthView};
use crate::json::{json_member, member, FromJson};
use vstd::prelude::*;

verus! {

/// The answer to a sign-in or a registration.
#[derive(Clone, Debug, PartialEq)]
pub struct AuthResponse {
    pub data: Auth,
}

impl View for AuthResponse {
    type V = AuthView;

    open spec fn view(&self) -> AuthView {
        self.data@
    }
}

impl FromJson for AuthResponse {
    /// The answer is an object whose `data` is a session.
    open spec fn decoded(value: serde_json::Value) -> Option<AuthView> {
        match json_member(value, "data"@) {
            Some(data) => Auth::decoded(data),
            None => None,
        }
    }

    fn from_json(value: &serde_json::Value) -> (r: Option<AuthResponse>) {
        match member(value, "data") {
            Some(data) => match Auth::from_json(data) {
                Some(auth) => Some(AuthResponse { data: auth }),
                None => None,
            },
            None => None,
        }
    }
}

} // verus!
