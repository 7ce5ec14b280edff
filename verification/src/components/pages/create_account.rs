//! The page on which a user creates an account.

use crate::api::api_client::{ApiClient, ApiError, Request};
use crate::api::auth::auth::Auth;
use crate::api::auth::auth_service::{auth_request, AuthService, USERS_URI};
use crate::components::pages::auth_data::AuthData;
use crate::components::pages::error_data::{ErrorData, ErrorDataView};
use crate::router::Route;
use crate::store::{SessionStore, TaskStore, TaskStoreView};
use crate::utils::{session_after_error, surface_api_error};
use vstd::prelude::*;

verus! {

/// The request that the form sends when it is submitted.
pub fn create_account_submitted(client: &ApiClient, auth_data: &AuthData) -> (r: Request)
    ensures
        r@ == auth_request(*client, USERS_URI@, auth_data@.username, auth_data@.password),
{
    AuthService::register_request(client, auth_data.username.clone(), auth_data.password.clone())
}

/// Takes in the answer to a registration. On success the session holds the
/// new user, the cached tasks of whoever was there before are forgotten,
/// and the home page is next. A failure is surfaced: the cache stays as it
/// was, and the result is the banner that shows the error.
pub fn create_account_answered(
    response: Result<Auth, ApiError>,
    session: &mut SessionStore,
    task_store: &mut TaskStore,
) -> (r: Result<Route, ErrorData>)
    ensures
        match response {
            Ok(auth) => {
                &&& final(session)@ == old(session)@.signed_in(auth@)
                &&& final(task_store)@ == TaskStoreView::empty()
                &&& r == Ok::<Route, ErrorData>(Route::Home)
            },
            Err(error) => {
                &&& final(session)@ == session_after_error(old(session)@, error@)
                &&& final(task_store)@ == old(task_store)@
                &&& r matches Err(shown) && shown@ == ErrorDataView::raised(
                    error@.message(),
                    shown.uuid,
                )
            },
        },
{
    match response {
        Ok(auth) => {
            session.login(auth);
            task_store.clear();
            Ok(Route::Home)
        },
        Err(error) => Err(surface_api_error(&error, session)),
    }
}

} // verus!
