//! What happens when a call to the server fails.

use crate::api::api_client::{ApiError, ApiErrorView};
use crate::components::pages::error_data::{ErrorData, ErrorDataView};
use crate::store::{SessionStore, SessionView};
use vstd::prelude::*;

verus! {

/// The status with which the server refuses a token.
pub const UNAUTHORIZED: u16 = 401;

/// Whether an error means that the server no longer accepts the session.
pub open spec fn is_authentication_failure(error: ApiErrorView) -> bool {
    match error {
        ApiErrorView::HttpStatus(code, _) => code == UNAUTHORIZED,
        _ => false,
    }
}

/// The session after an error: signed out if the server refused the
/// session, and unchanged after any other error.
pub open spec fn session_after_error(session: SessionView, error: ApiErrorView) -> SessionView {
    if is_authentication_failure(error) {
        session.signed_out()
    } else {
        session
    }
}

/// The banner after an error, where the page has one: it shows the message
/// of the error under the error's token. A page without a banner stays
/// without one.
pub open spec fn banner_after_error(has_banner: bool, error: ApiErrorView, token: u128) -> Option<
    ErrorDataView,
> {
    if has_banner {
        Some(ErrorDataView::raised(error.message(), token))
    } else {
        None
    }
}

/// The view of an optional banner.
pub open spec fn opt_banner(banner: Option<ErrorData>) -> Option<ErrorDataView> {
    match banner {
        Some(data) => Some(data@),
        None => None,
    }
}

/// Calls `Uuid::new_v4` and takes the number of the identifier. The number
/// is random, so nothing is promised of it.
#[verifier::external_body]
pub(crate) fn new_token() -> u128 {
    uuid::Uuid::new_v4().as_u128()
}

/// Handles an error under a given token: signs the user out if the server
/// refused the session, and puts the error on the page's banner, if the
/// page has one. The caller starts the timer that lets the banner expire
/// under the same token.
pub fn raise_api_error(
    error: &ApiError,
    session: &mut SessionStore,
    error_data: Option<ErrorData>,
    token: u128,
) -> (r: Option<ErrorData>)
    ensures
        final(session)@ == session_after_error(old(session)@, error@),
        opt_banner(r) == banner_after_error(error_data is Some, error@, token),
{
    match error {
        ApiError::HttpStatus(code, _) => {
            if *code == UNAUTHORIZED {
                session.logout();
            }
        },
        ApiError::Parse(_) => {},
        ApiError::Other(_) => {},
    }
    match error_data {
        Some(_) => Some(ErrorData::raise(error.to_string(), token)),
        None => None,
    }
}

/// Handles an error: signs the user out if the server refused the session,
/// and puts the error on the page's banner, if the page has one, under a
/// token drawn for this error.
pub fn handle_api_error(
    error: &ApiError,
    session: &mut SessionStore,
    error_data: Option<ErrorData>,
) -> (r: Option<ErrorData>)
    ensures
        final(session)@ == session_after_error(old(session)@, error@),
        r is Some <==> error_data is Some,
        r matches Some(shown) ==> shown@ == ErrorDataView::raised(error@.message(), shown.uuid),
{
    let token = new_token();
    raise_api_error(error, session, error_data, token)
}

/// Handles an error on a page that has a banner: signs the user out if the
/// server refused the session, and gives the banner that shows the error,
/// under a token drawn for this error.
pub fn surface_api_error(error: &ApiError, session: &mut SessionStore) -> (r: ErrorData)
    ensures
        final(session)@ == session_after_error(old(session)@, error@),
        r@ == ErrorDataView::raised(error@.message(), r.uuid),
{
    let shown = handle_api_error(error, session, Some(ErrorData::default()));
    shown.unwrap()
}

/// The banner that shows an error, under a token drawn for this error. The
/// session is not touched.
pub fn show_api_error(error: &ApiError) -> (r: ErrorData)
    ensures
        r@ == ErrorDataView::raised(error@.message(), r.uuid),
{
    ErrorData::raise(error.to_string(), new_token())
}

} // verus!
