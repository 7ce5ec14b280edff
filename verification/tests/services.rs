use todo_client::api::api_client::{ApiClient, ApiError, Header, Method, Request, Response};
use todo_client::api::auth::auth::Auth;
use todo_client::api::auth::auth_service::AuthService;
use todo_client::api::tasks::tasks_service::TasksService;
use todo_client::api::tasks::todo_task::{Priority, TodoTask};

fn ok(status: u16, body: &str) -> Result<Response, String> {
    Ok(Response { status, status_text: "OK".to_string(), body: body.to_string() })
}

fn headers_of(request: &Request) -> Vec<(String, String)> {
    request
        .headers
        .as_ref()
        .unwrap()
        .entries
        .iter()
        .map(|Header { name, value }| (name.clone(), value.clone()))
        .collect()
}

fn json_header() -> (String, String) {
    ("content-type".to_string(), "application/json".to_string())
}

fn token_header(token: &str) -> (String, String) {
    ("x-auth-token".to_string(), token.to_string())
}

#[test]
fn login_request_shape() {
    let client = ApiClient::new("http://api");
    let r = AuthService::login_request(&client, "alice".to_string(), "s3cret".to_string());
    assert_eq!(r.url, "http://api/users/login");
    assert_eq!(r.method, Method::POST);
    assert_eq!(r.body, Some("{\"username\":\"alice\",\"password\":\"s3cret\"}".to_string()));
    assert_eq!(headers_of(&r), vec![json_header()]);
}

#[test]
fn register_request_shape() {
    let client = ApiClient::new("http://api");
    let r = AuthService::register_request(&client, "bob".to_string(), "pw".to_string());
    assert_eq!(r.url, "http://api/users");
    assert_eq!(r.method, Method::POST);
    assert_eq!(r.body, Some("{\"username\":\"bob\",\"password\":\"pw\"}".to_string()));
    assert_eq!(headers_of(&r), vec![json_header()]);
}

#[test]
fn auth_body_escapes_its_texts() {
    let body = AuthService::get_auth_body("a\"b".to_string(), "c\\d\n".to_string());
    assert_eq!(body, "{\"username\":\"a\\\"b\",\"password\":\"c\\\\d\\n\"}");
    let read: serde_json::Value = serde_json::from_str(&body).unwrap();
    assert_eq!(read["username"].as_str(), Some("a\"b"));
    assert_eq!(read["password"].as_str(), Some("c\\d\n"));
}

#[test]
fn login_response_gives_the_session() {
    let body = "{\"data\":{\"username\":\"alice\",\"token\":\"t1\",\"id\":4}}";
    assert_eq!(
        AuthService::login_response(ok(200, body)),
        Ok(Auth { username: "alice".to_string(), token: "t1".to_string() })
    );
    assert_eq!(
        AuthService::register_response(ok(201, body)),
        Ok(Auth { username: "alice".to_string(), token: "t1".to_string() })
    );
}

#[test]
fn server_error_in_body_is_normalised() {
    assert_eq!(
        AuthService::login_response(ok(200, "{\"error\":\"wrong password\"}")),
        Err(ApiError::Other("wrong password".to_string()))
    );
    assert_eq!(
        TasksService::get_tasks_response(ok(200, "{\"error\":\"nope\"}")),
        Err(ApiError::Other("nope".to_string()))
    );
    assert_eq!(
        TasksService::create_task_response(ok(200, "{\"error\":\"title missing\"}")),
        Err(ApiError::Other("title missing".to_string()))
    );
}

#[test]
fn failures_pass_through_the_services() {
    assert_eq!(
        AuthService::login_response(Err("offline".to_string())),
        Err(ApiError::Other("offline".to_string()))
    );
    let unauthorized: Result<Response, String> = Ok(Response {
        status: 401,
        status_text: "Unauthorized".to_string(),
        body: "{\"data\":[]}".to_string(),
    });
    assert_eq!(
        TasksService::get_tasks_response(unauthorized),
        Err(ApiError::HttpStatus(401, "Unauthorized".to_string()))
    );
    assert!(matches!(
        AuthService::login_response(ok(200, "{\"data\":{\"username\":\"alice\"}}")),
        Err(ApiError::Parse(_))
    ));
}

#[test]
fn get_tasks_request_shape() {
    let client = ApiClient::new("http://api");
    let r = TasksService::get_tasks_request(&client, "t1".to_string());
    assert_eq!(r.url, "http://api/tasks");
    assert_eq!(r.method, Method::GET);
    assert_eq!(r.body, None);
    assert_eq!(headers_of(&r), vec![json_header(), token_header("t1")]);
}

#[test]
fn create_task_request_shape() {
    let client = ApiClient::new("http://api");
    let mut task = TodoTask::default();
    task.title = "Buy milk".to_string();
    let r = TasksService::create_task_request(&client, "t1".to_string(), task);
    assert_eq!(r.url, "http://api/tasks");
    assert_eq!(r.method, Method::POST);
    assert_eq!(
        r.body,
        Some(
            "{\"id\":0,\"title\":\"Buy milk\",\"priority\":null,\"description\":null,\"completedAt\":null,\"userId\":0}"
                .to_string()
        )
    );
    assert_eq!(headers_of(&r), vec![json_header(), token_header("t1")]);
}

#[test]
fn update_task_request_shape() {
    let client = ApiClient::new("http://api");
    let mut task = TodoTask::default();
    task.id = 42;
    task.title = "x".to_string();
    task.priority = Some(Priority::A);
    let r = TasksService::update_task_request(&client, "tok".to_string(), task);
    assert_eq!(r.url, "http://api/tasks/42");
    assert_eq!(r.method, Method::PATCH);
    assert_eq!(
        r.body,
        Some(
            "{\"id\":42,\"title\":\"x\",\"priority\":\"A\",\"description\":null,\"completedAt\":null,\"userId\":0}"
                .to_string()
        )
    );
    assert_eq!(headers_of(&r), vec![json_header(), token_header("tok")]);
}

#[test]
fn delete_and_toggle_request_shapes() {
    let client = ApiClient::new("http://api");
    let r = TasksService::delete_task_request(&client, "tok".to_string(), 7);
    assert_eq!(r.url, "http://api/tasks/7");
    assert_eq!(r.method, Method::DELETE);
    assert_eq!(r.body, None);
    assert_eq!(headers_of(&r), vec![json_header(), token_header("tok")]);
    let r = TasksService::delete_task_request(&client, "tok".to_string(), -3);
    assert_eq!(r.url, "http://api/tasks/-3");
    let r = TasksService::delete_task_request(&client, "tok".to_string(), i32::MIN);
    assert_eq!(r.url, "http://api/tasks/-2147483648");
    let r = TasksService::task_toggle_completed_request(&client, "tok".to_string(), 1200);
    assert_eq!(r.url, "http://api/tasks/1200/completed");
    assert_eq!(r.method, Method::PATCH);
    assert_eq!(r.body, None);
    assert_eq!(headers_of(&r), vec![json_header(), token_header("tok")]);
}

#[test]
fn update_reports_an_error_body_under_a_success_status() {
    assert_eq!(
        TasksService::update_task_response(ok(200, "{\"error\":\"title is required\"}")),
        Err(ApiError::Other("title is required".to_string()))
    );
    assert_eq!(
        TasksService::update_task_response(ok(299, "{\"error\":\"\",\"data\":1}")),
        Err(ApiError::Other(String::new()))
    );
    assert_eq!(TasksService::update_task_response(ok(200, "")), Ok(()));
    assert_eq!(TasksService::update_task_response(ok(204, "")), Ok(()));
    assert_eq!(TasksService::update_task_response(ok(200, "{\"data\":{}}")), Ok(()));
    assert_eq!(TasksService::update_task_response(ok(200, "{\"error\":7}")), Ok(()));
    assert_eq!(TasksService::update_task_response(ok(200, "saved")), Ok(()));
    let refused: Result<Response, String> = Ok(Response {
        status: 422,
        status_text: "Unprocessable Entity".to_string(),
        body: "{\"error\":\"title is required\"}".to_string(),
    });
    assert_eq!(
        TasksService::update_task_response(refused),
        Err(ApiError::HttpStatus(422, "Unprocessable Entity".to_string()))
    );
}

#[test]
fn deletion_does_not_read_the_body() {
    assert_eq!(
        TasksService::delete_task_response(ok(200, "{\"error\":\"ignored\"}")),
        Ok(())
    );
}

#[test]
fn answers_without_body_succeed_by_status() {
    assert_eq!(TasksService::update_task_response(ok(204, "")), Ok(()));
    assert_eq!(TasksService::delete_task_response(ok(200, "anything")), Ok(()));
    assert_eq!(TasksService::task_toggle_completed_response(ok(299, "")), Ok(()));
    let gone: Result<Response, String> =
        Ok(Response { status: 404, status_text: "Not Found".to_string(), body: String::new() });
    assert_eq!(
        TasksService::delete_task_response(gone),
        Err(ApiError::HttpStatus(404, "Not Found".to_string()))
    );
    assert_eq!(
        TasksService::update_task_response(Err("timeout".to_string())),
        Err(ApiError::Other("timeout".to_string()))
    );
}

#[test]
fn created_task_comes_back_from_the_server() {
    let body = "{\"data\":{\"id\":11,\"title\":\"Buy milk\",\"priority\":null,\"description\":null,\"createdAt\":\"2023-01-02 03:04:05.000000\",\"completedAt\":null,\"userId\":5}}";
    let task = TasksService::create_task_response(ok(201, body)).unwrap();
    assert_eq!(task.id, 11);
    assert_eq!(task.user_id, 5);
    assert_eq!(task.created_at, Some("2023-01-02 03:04:05.000000".to_string()));
}

#[test]
fn task_list_keeps_the_servers_order() {
    let body = "{\"data\":[{\"id\":3,\"title\":\"c\",\"userId\":1},{\"id\":1,\"title\":\"a\",\"userId\":1},{\"id\":2,\"title\":\"b\",\"userId\":1}]}";
    let tasks = TasksService::get_tasks_response(ok(200, body)).unwrap();
    let ids: Vec<i32> = tasks.iter().map(|t| t.id).collect();
    assert_eq!(ids, vec![3, 1, 2]);
    let one_bad = "{\"data\":[{\"id\":3,\"title\":\"c\",\"userId\":1},{\"id\":\"x\"}]}";
    assert!(matches!(TasksService::get_tasks_response(ok(200, one_bad)), Err(ApiError::Parse(_))));
}
