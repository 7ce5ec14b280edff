//! What the forms for signing in and for creating an account hold.

use vstd::prelude::*;

verus! {

/// The name and the password that a form holds.
#[derive(Clone, Debug, PartialEq)]
pub struct AuthData {
    pub username: String,
    pub password: String,
}

/// What the form holds, as mathematical values.
pub struct AuthDataView {
    pub username: Seq<char>,
    pub password: Seq<char>,
}

impl View for AuthData {
    type V = AuthDataView;

    open spec fn view(&self) -> AuthDataView {
        AuthDataView { username: self.username@, password: self.password@ }
    }
}

impl AuthDataView {
    /// The empty form.
    pub open spec fn empty() -> AuthDataView {
        AuthDataView { username: Seq::empty(), password: Seq::empty() }
    }

    /// The form after the field `id` was set to `value`. A field that the
    /// form does not have changes nothing.
    pub open spec fn changed(self, id: Seq<char>, value: Seq<char>) -> AuthDataView {
        if id == "username"@ {
            AuthDataView { username: value, password: self.password }
        } else if id == "password"@ {
            AuthDataView { username: self.username, password: value }
        } else {
            self
        }
    }
}

impl Default for AuthData {
    /// The empty form.
    fn default() -> (r: AuthData)
        ensures
            r@ == AuthDataView::empty(),
    {
        AuthData { username: String::new(), password: String::new() }
    }
}

impl AuthData {
    /// Sets the field `id` to `value`.
    pub fn on_change(&mut self, id: &str, value: String)
        ensures
            final(self)@ == old(self)@.changed(id@, value@),
    {
        if id.eq("username") {
            self.username = value;
        } else if id.eq("password") {
            self.password = value;
        }
    }
}

} // verus!
