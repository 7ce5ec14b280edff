//! The pages that the application can show.

use vstd::prelude::*;

verus! {

/// A page of the application.
#[derive(Clone, Copy, Debug, PartialEq, Eq, Structural)]
pub enum Route {
    Home,
    Login,
    CreateAccount,
    NewTask,
    TaskDetails { id: i32 },
}

} // verus!
