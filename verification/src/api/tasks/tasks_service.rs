//! The operations on tasks.

use crate::api::api_client::{
    exchange_view, received_json, received_text, ApiClient, ApiError, ApiErrorView, Headers,
    Method, Request, RequestView, Response, ResponseView,
};
use crate::api::api_error_response::{reported_error, ApiErrorResponse};
use crate::json::{parse, FromJson};
use crate::api::tasks::tasks_response::{TaskResponse, TasksResponse};
use crate::api::tasks::todo_task::{task_views, TodoTask, TodoTaskView};
use crate::text::{decimal, i64_to_decimal};
use vstd::prelude::*;
use vstd::string::*;

verus! {

/// The operations on tasks. Each of them is made in the name of a user and
/// carries the user's token.
pub struct TasksService;

/// Where the tasks are.
pub const TASKS_URI: &'static str = "/tasks";

/// The headers of a request made in a user's name: the content type, then
/// the token.
pub open spec fn token_headers(token: Seq<char>) -> Seq<(Seq<char>, Seq<char>)> {
    seq![("content-type"@, "application/json"@), ("x-auth-token"@, token)]
}

/// Where one task is.
pub open spec fn task_uri(id: i32) -> Seq<char> {
    TASKS_URI@ + "/"@ + decimal(id as int)
}

/// Where the completion of one task is switched.
pub open spec fn task_completed_uri(id: i32) -> Seq<char> {
    task_uri(id) + "/completed"@
}

/// The request of an operation on tasks.
pub open spec fn task_request(
    client: ApiClient,
    uri: Seq<char>,
    method: Method,
    body: Option<Seq<char>>,
    token: Seq<char>,
) -> RequestView {
    RequestView { url: client.config@ + uri, method, body, headers: Some(token_headers(token)) }
}

/// What a finished exchange means where the answer is one task.
pub open spec fn task_outcome(exchange: Result<ResponseView, Seq<char>>) -> Result<
    TodoTaskView,
    ApiErrorView,
> {
    match received_json::<TaskResponse, ApiErrorResponse>(exchange) {
        Ok(Ok(task)) => Ok(task),
        Ok(Err(message)) => Err(ApiErrorView::Other(message)),
        Err(error) => Err(error),
    }
}

/// What a finished exchange means where the answer is the list of tasks.
pub open spec fn tasks_outcome(exchange: Result<ResponseView, Seq<char>>) -> Result<
    Seq<TodoTaskView>,
    ApiErrorView,
> {
    match received_json::<TasksResponse, ApiErrorResponse>(exchange) {
        Ok(Ok(tasks)) => Ok(tasks),
        Ok(Err(message)) => Err(ApiErrorView::Other(message)),
        Err(error) => Err(error),
    }
}

/// What a finished exchange means where the answer has no body: success by
/// the status alone.
pub open spec fn done_outcome(exchange: Result<ResponseView, Seq<char>>) -> Result<
    (),
    ApiErrorView,
> {
    match received_text(exchange) {
        Ok(_) => Ok(()),
        Err(error) => Err(error),
    }
}

/// What a finished exchange means for an update. The answer to an update
/// that was made has no body. An answer with a success status whose body
/// is an error of the server is a failure with the server's message; any
/// other answer with a success status is a success.
pub open spec fn updated_outcome(exchange: Result<ResponseView, Seq<char>>) -> Result<
    (),
    ApiErrorView,
> {
    match received_text(exchange) {
        Ok(body) => match reported_error(body) {
            Some(message) => Err(ApiErrorView::Other(message)),
            None => Ok(()),
        },
        Err(error) => Err(error),
    }
}

/// The view of a result that is one task.
pub open spec fn task_result_view(result: Result<TodoTask, ApiError>) -> Result<
    TodoTaskView,
    ApiErrorView,
> {
    match result {
        Ok(task) => Ok(task@),
        Err(error) => Err(error@),
    }
}

/// The view of a result that is a list of tasks.
pub open spec fn tasks_result_view(result: Result<Vec<TodoTask>, ApiError>) -> Result<
    Seq<TodoTaskView>,
    ApiErrorView,
> {
    match result {
        Ok(tasks) => Ok(task_views(tasks@)),
        Err(error) => Err(error@),
    }
}

/// The view of a result that only says whether the operation was done.
pub open spec fn done_result_view(result: Result<(), ApiError>) -> Result<(), ApiErrorView> {
    match result {
        Ok(_) => Ok(()),
        Err(error) => Err(error@),
    }
}

impl TasksService {
    /// The request that creates a task.
    pub fn create_task_request(client: &ApiClient, token: String, task: TodoTask) -> (r: Request)
        ensures
            r@ == task_request(*client, TASKS_URI@, Method::POST, Some(task@.body()), token@),
    {
        client.request(
            TASKS_URI,
            Method::POST,
            Some(task.to_json()),
            Some(Self::get_headers(token)),
        )
    }

    /// What the answer to a creation means: the task as the server holds it.
    pub fn create_task_response(exchange: Result<Response, String>) -> (r: Result<
        TodoTask,
        ApiError,
    >)
        ensures
            task_result_view(r) == task_outcome(exchange_view(exchange)),
    {
        match ApiClient::receive_json::<TaskResponse, ApiErrorResponse>(exchange) {
            Ok(Ok(response)) => Ok(response.data),
            Ok(Err(failure)) => Err(failure.into()),
            Err(error) => Err(error),
        }
    }

    /// The request that replaces a task by its edited form.
    pub fn update_task_request(client: &ApiClient, token: String, task: TodoTask) -> (r: Request)
        ensures
            r@ == task_request(
                *client,
                task_uri(task.id),
                Method::PATCH,
                Some(task@.body()),
                token@,
            ),
    {
        let uri = Self::get_task_uri(task.id);
        client.request(
            uri.as_str(),
            Method::PATCH,
            Some(task.to_json()),
            Some(Self::get_headers(token)),
        )
    }

    /// What the answer to an update means: an error that the server
    /// reports in the body reaches the caller, also under a success
    /// status.
    pub fn update_task_response(exchange: Result<Response, String>) -> (r: Result<(), ApiError>)
        ensures
            done_result_view(r) == updated_outcome(exchange_view(exchange)),
    {
        match ApiClient::receive_text(exchange) {
            Ok(body) => match parse(body.as_str()) {
                Ok(value) => match ApiErrorResponse::from_json(&value) {
                    Some(failure) => Err(failure.into()),
                    None => Ok(()),
                },
                Err(_) => Ok(()),
            },
            Err(error) => Err(error),
        }
    }

    /// The request that deletes a task.
    pub fn delete_task_request(client: &ApiClient, token: String, id: i32) -> (r: Request)
        ensures
            r@ == task_request(*client, task_uri(id), Method::DELETE, None, token@),
    {
        let uri = Self::get_task_uri(id);
        client.request(uri.as_str(), Method::DELETE, None, Some(Self::get_headers(token)))
    }

    /// What the answer to a deletion means.
    pub fn delete_task_response(exchange: Result<Response, String>) -> (r: Result<(), ApiError>)
        ensures
            done_result_view(r) == done_outcome(exchange_view(exchange)),
    {
        Self::read_done(exchange)
    }

    /// The request that switches a task between completed and not
    /// completed.
    pub fn task_toggle_completed_request(client: &ApiClient, token: String, id: i32) -> (r:
        Request)
        ensures
            r@ == task_request(*client, task_completed_uri(id), Method::PATCH, None, token@),
    {
        let mut uri = Self::get_task_uri(id);
        uri.append("/completed");
        client.request(uri.as_str(), Method::PATCH, None, Some(Self::get_headers(token)))
    }

    /// What the answer to a switch of completion means.
    pub fn task_toggle_completed_response(exchange: Result<Response, String>) -> (r: Result<
        (),
        ApiError,
    >)
        ensures
            done_result_view(r) == done_outcome(exchange_view(exchange)),
    {
        Self::read_done(exchange)
    }

    /// The request that fetches the tasks of the user.
    pub fn get_tasks_request(client: &ApiClient, token: String) -> (r: Request)
        ensures
            r@ == task_request(*client, TASKS_URI@, Method::GET, None, token@),
    {
        client.request(TASKS_URI, Method::GET, None, Some(Self::get_headers(token)))
    }

    /// What the answer to a fetch means: the tasks, in the server's order.
    pub fn get_tasks_response(exchange: Result<Response, String>) -> (r: Result<
        Vec<TodoTask>,
        ApiError,
    >)
        ensures
            tasks_result_view(r) == tasks_outcome(exchange_view(exchange)),
    {
        match ApiClient::receive_json::<TasksResponse, ApiErrorResponse>(exchange) {
            Ok(Ok(response)) => Ok(response.data),
            Ok(Err(failure)) => Err(failure.into()),
            Err(error) => Err(error),
        }
    }

    fn read_done(exchange: Result<Response, String>) -> (r: Result<(), ApiError>)
        ensures
            done_result_view(r) == done_outcome(exchange_view(exchange)),
    {
        match ApiClient::receive_text(exchange) {
            Ok(_) => Ok(()),
            Err(error) => Err(error),
        }
    }

    fn get_task_uri(id: i32) -> (r: String)
        ensures
            r@ == task_uri(id),
    {
        let mut uri = String::from_str(TASKS_URI);
        uri.append("/");
        uri.append(i64_to_decimal(id as i64).as_str());
        uri
    }

    /// The headers of a request made with a token.
    pub fn get_headers(token: String) -> (r: Headers)
        ensures
            r@ == token_headers(token@),
    {
        let mut headers = Headers::default();
        headers.append("content-type", "application/json");
        headers.append("x-auth-token", token.as_str());
        assert(headers@ =~= token_headers(token@));
        headers
    }
}

/// An update that the server refused is never taken for one that was made:
/// under a success status, a body that is an error of the server gives a
/// failure with the server's message, and every other body, the empty one
/// among them, gives success.
pub proof fn lemma_update_reports_the_servers_error(response: ResponseView)
    requires
        crate::api::api_client::is_success_status(response.status),
    ensures
        updated_outcome(Ok(response)) == (match reported_error(response.body) {
            Some(message) => Err::<(), ApiErrorView>(ApiErrorView::Other(message)),
            None => Ok::<(), ApiErrorView>(()),
        }),
        reported_error(response.body) is Some ==> updated_outcome(Ok(response)) is Err,
{
}

} // verus!
