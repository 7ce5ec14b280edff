//! Requests, responses, and how a finished exchange is classified.
//!
//! The client itself performs no I/O. It builds the request to send, and it
//! says what a finished exchange means: a transport failure, an HTTP
//! failure, or a success whose body is then decoded. Sending is the
//! caller's part.

use crate::json::{
    error_text, json_error_text, json_from_str, parse, read_text_member, text_member,
    FailureShape, FromJson,
};
use crate::text::{decimal, u64_to_decimal};
use vstd::prelude::*;
use vstd::string::*;

verus! {

/// Why a call to the server gave no result.
#[derive(Clone, Debug, PartialEq)]
pub enum ApiError {
    /// The server answered with a status outside 200 to 299: the status and
    /// its text.
    HttpStatus(u16, String),
    /// The body had none of the expected shapes.
    Parse(String),
    /// The exchange did not complete, or the server reported an error of
    /// its own in the body.
    Other(String),
}

/// What an `ApiError` holds, as mathematical values.
pub enum ApiErrorView {
    HttpStatus(u16, Seq<char>),
    Parse(Seq<char>),
    Other(Seq<char>),
}

impl View for ApiError {
    type V = ApiErrorView;

    open spec fn view(&self) -> ApiErrorView {
        match self {
            ApiError::HttpStatus(code, text) => ApiErrorView::HttpStatus(*code, text@),
            ApiError::Parse(message) => ApiErrorView::Parse(message@),
            ApiError::Other(message) => ApiErrorView::Other(message@),
        }
    }
}

impl ApiErrorView {
    /// The message shown for an error: "status: text" for an HTTP failure,
    /// else the message that the error carries.
    pub open spec fn message(self) -> Seq<char> {
        match self {
            ApiErrorView::HttpStatus(code, text) => decimal(code as int) + ": "@ + text,
            ApiErrorView::Parse(message) => message,
            ApiErrorView::Other(message) => message,
        }
    }
}

impl ApiError {
    /// The message shown for the error.
    pub fn to_string(&self) -> (r: String)
        ensures
            r@ == self@.message(),
    {
        match self {
            ApiError::HttpStatus(code, text) => {
                let mut r = u64_to_decimal(*code as u64);
                r.append(": ");
                r.append(text.as_str());
                r
            },
            ApiError::Parse(message) => message.clone(),
            ApiError::Other(message) => message.clone(),
        }
    }
}

/// The method of a request.
#[derive(Clone, Copy, Debug, PartialEq, Eq, Structural)]
pub enum Method {
    GET,
    HEAD,
    POST,
    PUT,
    DELETE,
    CONNECT,
    OPTIONS,
    TRACE,
    PATCH,
}

/// One header of a request: its name and its value.
#[derive(Clone, Debug, PartialEq)]
pub struct Header {
    pub name: String,
    pub value: String,
}

/// The headers of a request, in the order in which they were appended.
#[derive(Clone, Debug, PartialEq)]
pub struct Headers {
    pub entries: Vec<Header>,
}

/// What a list of headers holds: pairs of name and value.
pub open spec fn header_views(entries: Seq<Header>) -> Seq<(Seq<char>, Seq<char>)> {
    entries.map_values(|h: Header| (h.name@, h.value@))
}

impl View for Headers {
    type V = Seq<(Seq<char>, Seq<char>)>;

    open spec fn view(&self) -> Seq<(Seq<char>, Seq<char>)> {
        header_views(self.entries@)
    }
}

impl Default for Headers {
    /// No headers.
    fn default() -> (r: Headers)
        ensures
            r@ == Seq::<(Seq<char>, Seq<char>)>::empty(),
    {
        let r = Headers { entries: Vec::new() };
        assert(r@ =~= Seq::<(Seq<char>, Seq<char>)>::empty());
        r
    }
}

impl Headers {
    /// Adds a header after those that are there.
    pub fn append(&mut self, name: &str, value: &str)
        ensures
            final(self)@ == old(self)@.push((name@, value@)),
    {
        let header = Header { name: name.to_owned(), value: value.to_owned() };
        self.entries.push(header);
        assert(self@ =~= old(self)@.push((name@, value@)));
    }
}

/// The view of optional headers.
pub open spec fn opt_headers(headers: Option<Headers>) -> Option<Seq<(Seq<char>, Seq<char>)>> {
    match headers {
        Some(h) => Some(h@),
        None => None,
    }
}

/// A request, ready to be sent.
#[derive(Clone, Debug, PartialEq)]
pub struct Request {
    pub url: String,
    pub method: Method,
    pub body: Option<String>,
    pub headers: Option<Headers>,
}

/// What a request holds, as mathematical values.
pub struct RequestView {
    pub url: Seq<char>,
    pub method: Method,
    pub body: Option<Seq<char>>,
    pub headers: Option<Seq<(Seq<char>, Seq<char>)>>,
}

impl View for Request {
    type V = RequestView;

    open spec fn view(&self) -> RequestView {
        RequestView {
            url: self.url@,
            method: self.method,
            body: crate::text::opt_text(self.body),
            headers: opt_headers(self.headers),
        }
    }
}

/// The answer of the server: its status, the text of the status, and the
/// body.
#[derive(Clone, Debug, PartialEq)]
pub struct Response {
    pub status: u16,
    pub status_text: String,
    pub body: String,
}

/// What a response holds, as mathematical values.
pub struct ResponseView {
    pub status: u16,
    pub status_text: Seq<char>,
    pub body: Seq<char>,
}

impl View for Response {
    type V = ResponseView;

    open spec fn view(&self) -> ResponseView {
        ResponseView { status: self.status, status_text: self.status_text@, body: self.body@ }
    }
}

/// The view of a finished exchange: the response, or the message of the
/// transport's failure.
pub open spec fn exchange_view(exchange: Result<Response, String>) -> Result<
    ResponseView,
    Seq<char>,
> {
    match exchange {
        Ok(response) => Ok(response@),
        Err(message) => Err(message@),
    }
}

/// Whether a status means success.
pub open spec fn is_success_status(status: u16) -> bool {
    200 <= status <= 299
}

/// How a finished exchange is classified. A transport failure keeps its
/// message. A response counts as a success by its status alone, whatever
/// its body holds; any other status is an HTTP failure.
pub open spec fn classified(exchange: Result<ResponseView, Seq<char>>) -> Result<
    ResponseView,
    ApiErrorView,
> {
    match exchange {
        Ok(response) => if is_success_status(response.status) {
            Ok(response)
        } else {
            Err(ApiErrorView::HttpStatus(response.status, response.status_text))
        },
        Err(message) => Err(ApiErrorView::Other(message)),
    }
}

/// What a body decodes to. The success shape is tried first; a body that
/// does not have it is tried as the error shape; a body with neither is a
/// parse failure. The failure carries the message of the last attempt:
/// that of the JSON reader where the body is no JSON at all, else what
/// says why the body has not the error shape.
pub open spec fn decoded_body<T: FromJson, E: FailureShape>(body: Seq<char>) -> Result<
    Result<T::V, E::V>,
    ApiErrorView,
> {
    match json_from_str(body) {
        Ok(value) => match T::decoded(value) {
            Some(payload) => Ok(Ok(payload)),
            None => match E::decoded(value) {
                Some(failure) => Ok(Err(failure)),
                None => Err(ApiErrorView::Parse(E::mismatch(value))),
            },
        },
        Err(error) => Err(ApiErrorView::Parse(json_error_text(error))),
    }
}

/// The view of a decoded body.
pub open spec fn reading_view<T: View, E: View>(reading: Result<Result<T, E>, ApiError>) -> Result<
    Result<T::V, E::V>,
    ApiErrorView,
> {
    match reading {
        Ok(Ok(payload)) => Ok(Ok(payload@)),
        Ok(Err(failure)) => Ok(Err(failure@)),
        Err(error) => Err(error@),
    }
}

/// What a finished exchange gives where a JSON body is expected: the
/// classification decides first, and only the body of a success is decoded.
pub open spec fn received_json<T: FromJson, E: FailureShape>(
    exchange: Result<ResponseView, Seq<char>>,
) -> Result<Result<T::V, E::V>, ApiErrorView> {
    match classified(exchange) {
        Ok(response) => decoded_body::<T, E>(response.body),
        Err(error) => Err(error),
    }
}

/// What a finished exchange gives where only success matters: the body of a
/// success, as it is.
pub open spec fn received_text(exchange: Result<ResponseView, Seq<char>>) -> Result<
    Seq<char>,
    ApiErrorView,
> {
    match classified(exchange) {
        Ok(response) => Ok(response.body),
        Err(error) => Err(error),
    }
}

/// The view of a text result.
pub open spec fn text_result_view(result: Result<String, ApiError>) -> Result<
    Seq<char>,
    ApiErrorView,
> {
    match result {
        Ok(text) => Ok(text@),
        Err(error) => Err(error@),
    }
}

/// The view of a classified exchange.
pub open spec fn classified_view(result: Result<Response, ApiError>) -> Result<
    ResponseView,
    ApiErrorView,
> {
    match result {
        Ok(response) => Ok(response@),
        Err(error) => Err(error@),
    }
}

/// The settings of the client: where the server is.
#[derive(Clone, Debug, PartialEq)]
pub struct ApiConfig {
    pub api_uri: String,
}

impl View for ApiConfig {
    type V = Seq<char>;

    open spec fn view(&self) -> Seq<char> {
        self.api_uri@
    }
}

impl FromJson for ApiConfig {
    /// The settings are an object with a string `api_uri`.
    open spec fn decoded(value: serde_json::Value) -> Option<Seq<char>> {
        text_member(value, "api_uri"@)
    }

    fn from_json(value: &serde_json::Value) -> (r: Option<ApiConfig>) {
        match read_text_member(value, "api_uri") {
            Some(api_uri) => Some(ApiConfig { api_uri }),
            None => None,
        }
    }
}

/// The settings that a text holds, if it is a JSON document of their shape.
pub open spec fn settings_of(text: Seq<char>) -> Option<Seq<char>> {
    match json_from_str(text) {
        Ok(value) => ApiConfig::decoded(value),
        Err(_) => None,
    }
}

/// The client of the server's REST interface.
#[derive(Clone, Debug, PartialEq)]
pub struct ApiClient {
    pub config: ApiConfig,
}

impl ApiClient {
    /// A client for the server at `api_uri`.
    pub fn new(api_uri: &str) -> (r: ApiClient)
        ensures
            r.config@ == api_uri@,
    {
        ApiClient { config: ApiConfig { api_uri: api_uri.to_owned() } }
    }

    /// A client for the server that a settings document names; `None` if
    /// the text is no such document.
    pub fn from_settings(text: &str) -> (r: Option<ApiClient>)
        ensures
            match r {
                Some(client) => settings_of(text@) == Some(client.config@),
                None => settings_of(text@) is None,
            },
    {
        match parse(text) {
            Ok(value) => match ApiConfig::from_json(&value) {
                Some(config) => Some(ApiClient { config }),
                None => None,
            },
            Err(_) => None,
        }
    }

    /// Builds a request: the URL is the server's address followed by `uri`;
    /// method, body and headers are passed on as they are.
    pub fn request(
        &self,
        uri: &str,
        method: Method,
        body: Option<String>,
        headers: Option<Headers>,
    ) -> (r: Request)
        ensures
            r@ == (RequestView {
                url: self.config@ + uri@,
                method,
                body: crate::text::opt_text(body),
                headers: opt_headers(headers),
            }),
    {
        let mut url = self.config.api_uri.clone();
        url.append(uri);
        Request { url, method, body, headers }
    }

    /// Whether a status means success, in which case the answer has a
    /// body worth reading.
    pub fn is_success(status: u16) -> (r: bool)
        ensures
            r == is_success_status(status),
    {
        200 <= status && status <= 299
    }

    /// Classifies a finished exchange by its status.
    pub fn ensure_success_status_code(exchange: Result<Response, String>) -> (r: Result<
        Response,
        ApiError,
    >)
        ensures
            classified_view(r) == classified(exchange_view(exchange)),
    {
        match exchange {
            Ok(response) => {
                if Self::is_success(response.status) {
                    Ok(response)
                } else {
                    Err(ApiError::HttpStatus(response.status, response.status_text))
                }
            },
            Err(message) => Err(ApiError::Other(message)),
        }
    }

    /// Decodes the body of a successful response.
    pub fn parse_response<T: FromJson, E: FailureShape>(response: Response) -> (r: Result<
        Result<T, E>,
        ApiError,
    >)
        ensures
            reading_view(r) == decoded_body::<T, E>(response@.body),
    {
        match parse(response.body.as_str()) {
            Ok(value) => match T::from_json(&value) {
                Some(payload) => Ok(Ok(payload)),
                None => match E::from_json(&value) {
                    Some(failure) => Ok(Err(failure)),
                    None => Err(ApiError::Parse(E::explain(&value))),
                },
            },
            Err(error) => Err(ApiError::Parse(error_text(&error))),
        }
    }

    /// What a finished exchange gives where only success matters: the body
    /// of a success, or the classified failure.
    pub fn receive_text(exchange: Result<Response, String>) -> (r: Result<String, ApiError>)
        ensures
            text_result_view(r) == received_text(exchange_view(exchange)),
    {
        match Self::ensure_success_status_code(exchange) {
            Ok(response) => Ok(response.body),
            Err(error) => Err(error),
        }
    }

    /// What a finished exchange gives where a JSON body is expected: the
    /// decoded body of a success, or the classified failure.
    pub fn receive_json<T: FromJson, E: FailureShape>(exchange: Result<Response, String>) -> (r:
        Result<Result<T, E>, ApiError>)
        ensures
            reading_view(r) == received_json::<T, E>(exchange_view(exchange)),
    {
        match Self::ensure_success_status_code(exchange) {
            Ok(response) => Self::parse_response(response),
            Err(error) => Err(error),
        }
    }
}

/// Shape fallback: a body that is JSON, fails the success shape and has the
/// error shape decodes to the server's own error, never to a parse failure.
pub proof fn lemma_error_shape_is_no_parse_failure<T: FromJson, E: FailureShape>(
    body: Seq<char>,
    value: serde_json::Value,
)
    requires
        json_from_str(body) == Ok::<serde_json::Value, serde_json::Error>(value),
        T::decoded(value) is None,
        E::decoded(value) is Some,
    ensures
        decoded_body::<T, E>(body) == Ok::<Result<T::V, E::V>, ApiErrorView>(
            Err(E::decoded(value)->0),
        ),
        !(decoded_body::<T, E>(body) matches Err(ApiErrorView::Parse(_))),
{
}

/// The success shape comes first: a body that has it decodes to the
/// payload, whether or not it has the error shape too.
pub proof fn lemma_success_shape_comes_first<T: FromJson, E: FailureShape>(
    body: Seq<char>,
    value: serde_json::Value,
)
    requires
        json_from_str(body) == Ok::<serde_json::Value, serde_json::Error>(value),
        T::decoded(value) is Some,
    ensures
        decoded_body::<T, E>(body) == Ok::<Result<T::V, E::V>, ApiErrorView>(
            Ok(T::decoded(value)->0),
        ),
{
}

/// A body that is JSON and has neither shape is a parse failure that says
/// why the body has not the error shape; a body that is no JSON is a parse
/// failure with the message of the JSON reader.
pub proof fn lemma_parse_failure_carries_the_reason<T: FromJson, E: FailureShape>(
    body: Seq<char>,
)
    ensures
        match json_from_str(body) {
            Ok(value) => T::decoded(value) is None && E::decoded(value) is None
                ==> decoded_body::<T, E>(body) == Err::<Result<T::V, E::V>, ApiErrorView>(
                ApiErrorView::Parse(E::mismatch(value)),
            ),
            Err(error) => decoded_body::<T, E>(body) == Err::<Result<T::V, E::V>, ApiErrorView>(
                ApiErrorView::Parse(json_error_text(error)),
            ),
        },
{
}

/// A response with a success status whose body has neither shape is a parse
/// failure: it is not taken for a success.
pub proof fn lemma_success_status_with_unreadable_body<T: FromJson, E: FailureShape>(
    response: ResponseView,
)
    requires
        is_success_status(response.status),
        match json_from_str(response.body) {
            Ok(value) => T::decoded(value) is None && E::decoded(value) is None,
            Err(_) => true,
        },
    ensures
        received_json::<T, E>(Ok(response)) matches Err(ApiErrorView::Parse(_)),
{
}

/// The status takes precedence: a response with a status outside 200 to 299
/// is an HTTP failure with that status and its text, whatever the body
/// holds, and whether a JSON body or a text is expected.
pub proof fn lemma_status_takes_precedence<T: FromJson, E: FailureShape>(response: ResponseView)
    requires
        !is_success_status(response.status),
    ensures
        received_json::<T, E>(Ok(response)) == Err::<Result<T::V, E::V>, ApiErrorView>(
            ApiErrorView::HttpStatus(response.status, response.status_text),
        ),
        received_text(Ok(response)) == Err::<Seq<char>, ApiErrorView>(
            ApiErrorView::HttpStatus(response.status, response.status_text),
        ),
{
}

} // verus!
