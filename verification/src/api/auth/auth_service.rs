//! The two operations that open a session: sign-in and registration.

use crate::api::api_client::{
    exchange_view, received_json, ApiClient, ApiError, ApiErrorView, Headers, Method, Request,
    RequestView, Response, ResponseView,
};
use crate::api::api_error_response::ApiErrorResponse;
use crate::api::auth::auth::{Auth, AuthView};
use crate::api::auth::auth_response::AuthResponse;
use crate::json::{json_string_literal, string_literal};
use vstd::prelude::*;
use vstd::string::*;

verus! {

/// The operations that open a session.
pub struct AuthService;

/// Where to sign in.
pub const LOGIN_URI: &'static str = "/users/login";

/// Where to create an account.
pub const USERS_URI: &'static str = "/users";

/// The body of a sign-in or a registration: a JSON object with the user's
/// name and password.
pub open spec fn auth_body(username: Seq<char>, password: Seq<char>) -> Seq<char> {
    "{\"username\":"@ + json_string_literal(username) + ",\"password\":"@ + json_string_literal(
        password,
    ) + "}"@
}

/// The headers of a request that carries a JSON body and no token.
pub open spec fn json_headers() -> Seq<(Seq<char>, Seq<char>)> {
    seq![("content-type"@, "application/json"@)]
}

/// The request that an operation of this service sends to `uri`.
pub open spec fn auth_request(
    client: ApiClient,
    uri: Seq<char>,
    username: Seq<char>,
    password: Seq<char>,
) -> RequestView {
    RequestView {
        url: client.config@ + uri,
        method: Method::POST,
        body: Some(auth_body(username, password)),
        headers: Some(json_headers()),
    }
}

/// What a finished exchange means for an operation of this service: the
/// session, or one error for every kind of failure. An error that the
/// server reports in the body keeps its message.
pub open spec fn auth_outcome(exchange: Result<ResponseView, Seq<char>>) -> Result<
    AuthView,
    ApiErrorView,
> {
    match received_json::<AuthResponse, ApiErrorResponse>(exchange) {
        Ok(Ok(auth)) => Ok(auth),
        Ok(Err(message)) => Err(ApiErrorView::Other(message)),
        Err(error) => Err(error),
    }
}

/// The view of the result of an operation of this service.
pub open spec fn auth_result_view(result: Result<Auth, ApiError>) -> Result<
    AuthView,
    ApiErrorView,
> {
    match result {
        Ok(auth) => Ok(auth@),
        Err(error) => Err(error@),
    }
}

impl AuthService {
    /// The request that signs a user in.
    pub fn login_request(client: &ApiClient, username: String, password: String) -> (r: Request)
        ensures
            r@ == auth_request(*client, LOGIN_URI@, username@, password@),
    {
        client.request(
            LOGIN_URI,
            Method::POST,
            Some(Self::get_auth_body(username, password)),
            Some(Self::get_headers()),
        )
    }

    /// What the answer to a sign-in means.
    pub fn login_response(exchange: Result<Response, String>) -> (r: Result<Auth, ApiError>)
        ensures
            auth_result_view(r) == auth_outcome(exchange_view(exchange)),
    {
        Self::read_auth(exchange)
    }

    /// The request that creates an account.
    pub fn register_request(client: &ApiClient, username: String, password: String) -> (r:
        Request)
        ensures
            r@ == auth_request(*client, USERS_URI@, username@, password@),
    {
        client.request(
            USERS_URI,
            Method::POST,
            Some(Self::get_auth_body(username, password)),
            Some(Self::get_headers()),
        )
    }

    /// What the answer to a registration means.
    pub fn register_response(exchange: Result<Response, String>) -> (r: Result<Auth, ApiError>)
        ensures
            auth_result_view(r) == auth_outcome(exchange_view(exchange)),
    {
        Self::read_auth(exchange)
    }

    fn read_auth(exchange: Result<Response, String>) -> (r: Result<Auth, ApiError>)
        ensures
            auth_result_view(r) == auth_outcome(exchange_view(exchange)),
    {
        match ApiClient::receive_json::<AuthResponse, ApiErrorResponse>(exchange) {
            Ok(Ok(response)) => Ok(response.data),
            Ok(Err(failure)) => Err(failure.into()),
            Err(error) => Err(error),
        }
    }

    /// The body that carries a user's name and password.
    pub fn get_auth_body(username: String, password: String) -> (r: String)
        ensures
            r@ == auth_body(username@, password@),
    {
        let mut r = String::from_str("{\"username\":");
        r.append(string_literal(username.as_str()).as_str());
        r.append(",\"password\":");
        r.append(string_literal(password.as_str()).as_str());
        r.append("}");
        r
    }

    /// The headers of the requests of this service.
    pub fn get_headers() -> (r: Headers)
        ensures
            r@ == json_headers(),
    {
        let mut headers = Headers::default();
        headers.append("content-type", "application/json");
        assert(headers@ =~= json_headers());
        headers
    }
}

} // verus!
