//! The home page.

use crate::store::{SessionStore, SessionView};
use vstd::prelude::*;
use vstd::string::*;

verus! {

/// What the home page tells a signed-in user.
pub const SIGNED_IN_NOTICE: &'static str = "Here you can add, delete and modify your tasks!";

/// What the home page tells a visitor who is not signed in.
pub const SIGNED_OUT_NOTICE: &'static str =
    "Here you could add, delete and modify your tasks, if you were logged in..";

/// What the home page shows above the list of tasks.
#[derive(Clone, Debug, PartialEq)]
pub struct HomeView {
    /// The greeting, for a signed-in user.
    pub welcome: Option<String>,
    /// The notice under the greeting.
    pub notice: String,
    /// Whether the list of tasks is shown.
    pub show_tasks: bool,
}

/// The greeting for a user.
pub open spec fn welcome_text(username: Seq<char>) -> Seq<char> {
    "Welcome, "@ + username + "!"@
}

/// What the home page shows: a greeting, a notice and the tasks to a
/// signed-in user, and a notice alone to anybody else.
pub fn home(session: &SessionStore) -> (r: HomeView)
    ensures
        match session@.user {
            Some(user) => {
                &&& r.welcome matches Some(text) && text@ == welcome_text(user.username)
                &&& r.notice@ == SIGNED_IN_NOTICE@
                &&& r.show_tasks
            },
            None => {
                &&& r.welcome is None
                &&& r.notice@ == SIGNED_OUT_NOTICE@
                &&& !r.show_tasks
            },
        },
{
    match &session.user {
        Some(user) => {
            let mut text = String::from_str("Welcome, ");
            text.append(user.username.as_str());
            text.append("!");
            HomeView {
                welcome: Some(text),
                notice: String::from_str(SIGNED_IN_NOTICE),
                show_tasks: true,
            }
        },
        None => HomeView {
            welcome: None,
            notice: String::from_str(SIGNED_OUT_NOTICE),
            show_tasks: false,
        },
    }
}

} // verus!
