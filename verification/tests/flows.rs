use todo_client::api::api_client::{ApiClient, ApiError, Header, Method, Response};
use todo_client::api::auth::auth_service::AuthService;
use todo_client::api::tasks::task::Task;
use todo_client::api::tasks::tasks_service::TasksService;
use todo_client::api::tasks::todo_task::{Priority, TodoTask};
use todo_client::components::organisms::tasks::{
    sort_tasks, task_changed, tasks_fetched, update_tasks_in_store, SortMode,
};
use todo_client::components::pages::auth_data::AuthData;
use todo_client::components::pages::error_data::ErrorData;
use todo_client::components::pages::home::home;
use todo_client::components::pages::login::{login_answered, login_submitted};
use todo_client::components::pages::new_task::{new_task_answered, new_task_submitted};
use todo_client::router::Route;
use todo_client::store::{SessionStore, TaskStore};

fn answer(status: u16, status_text: &str, body: &str) -> Result<Response, String> {
    Ok(Response { status, status_text: status_text.to_string(), body: body.to_string() })
}

#[test]
fn flow_login_then_list_tasks() {
    let client = ApiClient::new("http://api");
    let form = AuthData { username: "alice".to_string(), password: "secret".to_string() };
    let request = login_submitted(&client, &form);
    assert_eq!(request.method, Method::POST);
    assert_eq!(request.url, "http://api/users/login");
    let response = AuthService::login_response(answer(
        200,
        "OK",
        "{\"data\":{\"username\":\"alice\",\"token\":\"t1\"}}",
    ));
    let mut session = SessionStore::default();
    let mut tasks = TaskStore::default();
    assert_eq!(login_answered(response, &mut session, &mut tasks), Ok(Route::Home));
    let user = session.user.clone().unwrap();
    assert_eq!(user.username, "alice");
    assert_eq!(user.token, "t1");
    let request = update_tasks_in_store(&client, session.token().unwrap(), &mut tasks).unwrap();
    assert_eq!(request.method, Method::GET);
    assert_eq!(request.url, "http://api/tasks");
    assert_eq!(request.body, None);
    let headers = request.headers.unwrap().entries;
    assert!(headers.contains(&Header { name: "x-auth-token".to_string(), value: "t1".to_string() }));
}

#[test]
fn flow_unauthorized_list_clears_the_session() {
    let mut session = SessionStore::default();
    let mut tasks = TaskStore::default();
    let auth = AuthService::login_response(answer(
        200,
        "OK",
        "{\"data\":{\"username\":\"alice\",\"token\":\"t1\"}}",
    ));
    login_answered(auth, &mut session, &mut tasks).unwrap();
    assert!(home(&session).show_tasks);
    let response = TasksService::get_tasks_response(answer(401, "Unauthorized", ""));
    assert_eq!(response, Err(ApiError::HttpStatus(401, "Unauthorized".to_string())));
    let shown = tasks_fetched(response, &mut tasks, &mut session, Some(ErrorData::default()));
    assert_eq!(session.user, None);
    assert_eq!(tasks, TaskStore::default());
    assert_eq!(shown.unwrap().message, "401: Unauthorized");
    let view = home(&session);
    assert_eq!(view.welcome, None);
    assert!(!view.show_tasks);
}

#[test]
fn flow_create_task_invalidates_the_cache() {
    let client = ApiClient::new("http://api");
    let mut session = SessionStore::default();
    let mut tasks = TaskStore::default();
    let auth = AuthService::login_response(answer(
        200,
        "OK",
        "{\"data\":{\"username\":\"alice\",\"token\":\"t1\"}}",
    ));
    login_answered(auth, &mut session, &mut tasks).unwrap();
    tasks_fetched(Ok(vec![]), &mut tasks, &mut session, None);
    assert!(tasks.tasks_valid);
    let mut draft = Task::default();
    draft.title = "Buy milk".to_string();
    let request = new_task_submitted(&client, &session, &draft).unwrap();
    assert_eq!(request.method, Method::POST);
    assert_eq!(request.url, "http://api/tasks");
    assert_eq!(
        request.body.unwrap(),
        "{\"id\":0,\"title\":\"Buy milk\",\"priority\":null,\"description\":null,\"completedAt\":null,\"userId\":0}"
    );
    let response = TasksService::create_task_response(answer(
        201,
        "Created",
        "{\"data\":{\"id\":31,\"title\":\"Buy milk\",\"priority\":null,\"description\":null,\"completedAt\":null,\"userId\":8}}",
    ));
    assert_eq!(new_task_answered(response, &mut session, &mut tasks), Ok(Route::Home));
    assert!(!tasks.tasks_valid);
    assert!(update_tasks_in_store(&client, "t1".to_string(), &mut tasks).is_some());
}

#[test]
fn flow_every_mutation_forces_a_refetch() {
    let client = ApiClient::new("http://api");
    let mut session = SessionStore::default();
    for response in [
        TasksService::update_task_response(answer(204, "No Content", "")),
        TasksService::delete_task_response(answer(200, "OK", "")),
        TasksService::task_toggle_completed_response(answer(200, "OK", "")),
    ] {
        let mut tasks = TaskStore::default();
        tasks.store_fetched(vec![TodoTask::default()]);
        assert!(update_tasks_in_store(&client, "t1".to_string(), &mut tasks).is_none());
        task_changed(response, &mut tasks, &mut session, None);
        assert!(!tasks.tasks_valid);
        assert!(tasks.read().is_none());
        assert!(update_tasks_in_store(&client, "t1".to_string(), &mut tasks).is_some());
    }
}

#[test]
fn flow_priority_sort_is_stable_with_unranked_last() {
    let task = |id: i32, priority: Option<Priority>| {
        let mut t = TodoTask::default();
        t.id = id;
        t.priority = priority;
        t
    };
    let input = vec![
        task(10, None),
        task(11, Some(Priority::C)),
        task(12, Some(Priority::A)),
        task(13, None),
        task(14, Some(Priority::B)),
        task(15, Some(Priority::A)),
        task(16, Some(Priority::C)),
        task(17, None),
        task(18, Some(Priority::B)),
    ];
    let sorted = sort_tasks(input, SortMode::Priority);
    let ids: Vec<i32> = sorted.iter().map(|t| t.id).collect();
    assert_eq!(ids, vec![12, 15, 14, 18, 11, 16, 10, 13, 17]);
    let first_unranked = sorted.iter().position(|t| t.priority.is_none()).unwrap();
    assert!(sorted[first_unranked..].iter().all(|t| t.priority.is_none()));
    assert!(sorted[..first_unranked].iter().all(|t| t.priority.is_some()));
}
