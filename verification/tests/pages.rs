use todo_client::api::api_client::{ApiClient, ApiError, Method};
use todo_client::api::auth::auth::Auth;
use todo_client::api::tasks::task::Task;
use todo_client::api::tasks::todo_task::{Priority, TodoTask};
use todo_client::components::atoms::dropdown::DropdownOption;
use todo_client::components::molecules::task::{task, TaskProperties};
use todo_client::components::pages::auth_data::AuthData;
use todo_client::components::pages::create_account::{
    create_account_answered, create_account_submitted,
};
use todo_client::components::pages::home::home;
use todo_client::components::pages::login::{login_answered, login_submitted};
use todo_client::components::pages::new_task::{
    edit_task as edit_new_task, new_task_answered, new_task_changed, new_task_submitted,
};
use todo_client::components::pages::task_details::{
    changes_saved, completed_label, delete_task, description_label, edit_task, get_priority_options,
    get_selected_value, get_task_by_id, priority_label, save_changes, session_title, task_deleted,
    task_details, task_details_changed, toggle_edit,
};
use todo_client::router::Route;
use todo_client::store::{SessionStore, TaskStore};

fn alice() -> Auth {
    Auth { username: "alice".to_string(), token: "t1".to_string() }
}

fn signed_in() -> SessionStore {
    SessionStore { user: Some(alice()), theme: None }
}

fn stored(id: i32, title: &str, completed_at: Option<&str>) -> TodoTask {
    TodoTask {
        id,
        title: title.to_string(),
        priority: Some(Priority::B),
        description: Some("d".to_string()),
        created_at: Some("2023-01-02 03:04:05.0".to_string()),
        completed_at: completed_at.map(|s| s.to_string()),
        user_id: 6,
    }
}

fn cache() -> TaskStore {
    let mut store = TaskStore::default();
    store.store_fetched(vec![
        stored(1, "one", None),
        stored(2, "two", Some("2023-02-03 04:05:06.0")),
        stored(2, "shadowed", None),
    ]);
    store
}

#[test]
fn auth_form_fields() {
    let mut form = AuthData::default();
    form.on_change("username", "alice".to_string());
    form.on_change("password", "pw".to_string());
    form.on_change("other", "x".to_string());
    form.on_change("Username", "y".to_string());
    assert_eq!(form, AuthData { username: "alice".to_string(), password: "pw".to_string() });
}

#[test]
fn login_page_flow() {
    let client = ApiClient::new("http://api");
    let form = AuthData { username: "alice".to_string(), password: "pw".to_string() };
    let request = login_submitted(&client, &form);
    assert_eq!(request.url, "http://api/users/login");
    assert_eq!(request.body, Some("{\"username\":\"alice\",\"password\":\"pw\"}".to_string()));
    let mut session = SessionStore { user: None, theme: Some("Neon".to_string()) };
    let mut tasks = cache();
    assert_eq!(login_answered(Ok(alice()), &mut session, &mut tasks), Ok(Route::Home));
    assert_eq!(session.user, Some(alice()));
    assert_eq!(session.theme, Some("Neon".to_string()));
    assert_eq!(tasks, TaskStore::default());
}

#[test]
fn failed_login_shows_the_error_and_changes_nothing() {
    let mut session = signed_in();
    let mut tasks = cache();
    let shown = login_answered(
        Err(ApiError::HttpStatus(401, "Unauthorized".to_string())),
        &mut session,
        &mut tasks,
    )
    .unwrap_err();
    assert_eq!(shown.message, "401: Unauthorized");
    assert!(shown.display);
    assert_eq!(session, signed_in());
    assert_eq!(tasks, cache());
}

#[test]
fn create_account_page_flow() {
    let client = ApiClient::new("http://api");
    let form = AuthData { username: "bob".to_string(), password: "pw".to_string() };
    let request = create_account_submitted(&client, &form);
    assert_eq!(request.url, "http://api/users");
    assert_eq!(request.method, Method::POST);
    let mut session = SessionStore::default();
    let mut tasks = cache();
    assert_eq!(create_account_answered(Ok(alice()), &mut session, &mut tasks), Ok(Route::Home));
    assert_eq!(session.user, Some(alice()));
    assert_eq!(tasks, TaskStore::default());
    let shown = create_account_answered(
        Err(ApiError::Other("name taken".to_string())),
        &mut session,
        &mut tasks,
    )
    .unwrap_err();
    assert_eq!(shown.message, "name taken");
    assert_eq!(session.user, Some(alice()));
}

#[test]
fn home_page_texts() {
    let view = home(&signed_in());
    assert_eq!(view.welcome, Some("Welcome, alice!".to_string()));
    assert_eq!(view.notice, "Here you can add, delete and modify your tasks!");
    assert!(view.show_tasks);
    let view = home(&SessionStore::default());
    assert_eq!(view.welcome, None);
    assert_eq!(
        view.notice,
        "Here you could add, delete and modify your tasks, if you were logged in.."
    );
    assert!(!view.show_tasks);
}

#[test]
fn new_task_form_fields() {
    let mut task = Task::default();
    edit_new_task(&mut task, "title", "Buy milk".to_string(), "now".to_string());
    edit_new_task(&mut task, "priority", "b".to_string(), "now".to_string());
    edit_new_task(&mut task, "description", "2 litres".to_string(), "now".to_string());
    edit_new_task(&mut task, "completed", String::new(), "2023-05-06 07:08:09".to_string());
    edit_new_task(&mut task, "unknown", "x".to_string(), "now".to_string());
    assert_eq!(
        task,
        Task {
            id: 0,
            title: "Buy milk".to_string(),
            priority: Some(Priority::B),
            description: Some("2 litres".to_string()),
            completed_at: Some("2023-05-06 07:08:09".to_string()),
        }
    );
    edit_new_task(&mut task, "priority", "-".to_string(), "now".to_string());
    edit_new_task(&mut task, "description", String::new(), "now".to_string());
    edit_new_task(&mut task, "completed", String::new(), "later".to_string());
    assert_eq!(task.priority, None);
    assert_eq!(task.description, None);
    assert_eq!(task.completed_at, None);
    assert_eq!(task.title, "Buy milk");
}

#[test]
fn other_fields_do_not_need_the_clock() {
    let mut task = Task::default();
    task.completed_at = Some("then".to_string());
    new_task_changed(&mut task, "description", "d".to_string());
    assert_eq!(task.description, Some("d".to_string()));
    assert_eq!(task.completed_at, Some("then".to_string()));
    new_task_changed(&mut task, "completed", String::new());
    assert_eq!(task.completed_at, None);
}

#[test]
fn new_task_completion_box_uses_the_clock() {
    let mut task = Task::default();
    new_task_changed(&mut task, "completed", String::new());
    assert!(task.completed());
    assert!(!task.completed_at.clone().unwrap().is_empty());
    new_task_changed(&mut task, "completed", String::new());
    assert!(!task.completed());
    new_task_changed(&mut task, "title", "t".to_string());
    assert_eq!(task.title, "t");
}

#[test]
fn new_task_page_flow() {
    let client = ApiClient::new("http://api");
    let mut task = Task::default();
    task.title = "Buy milk".to_string();
    assert_eq!(new_task_submitted(&client, &SessionStore::default(), &task), None);
    let request = new_task_submitted(&client, &signed_in(), &task).unwrap();
    assert_eq!(request.url, "http://api/tasks");
    assert_eq!(request.method, Method::POST);
    let mut session = signed_in();
    let mut tasks = cache();
    assert_eq!(
        new_task_answered(Ok(stored(9, "Buy milk", None)), &mut session, &mut tasks),
        Ok(Route::Home)
    );
    assert!(!tasks.tasks_valid);
    assert_eq!(session, signed_in());
    let mut tasks = cache();
    let shown = new_task_answered(
        Err(ApiError::HttpStatus(401, "Unauthorized".to_string())),
        &mut session,
        &mut tasks,
    )
    .unwrap_err();
    assert_eq!(shown.message, "401: Unauthorized");
    assert_eq!(session.user, None);
    assert_eq!(tasks, cache());
}

#[test]
fn task_lookup_takes_the_first_match_in_a_valid_cache() {
    let mut store = cache();
    assert_eq!(get_task_by_id(1, &store), Some(stored(1, "one", None)));
    assert_eq!(get_task_by_id(2, &store), Some(stored(2, "two", Some("2023-02-03 04:05:06.0"))));
    assert_eq!(get_task_by_id(3, &store), None);
    assert_eq!(session_title(2, &store), "two");
    assert_eq!(session_title(3, &store), "");
    store.invalidate();
    assert_eq!(get_task_by_id(1, &store), None);
    assert_eq!(get_task_by_id(1, &TaskStore::default()), None);
}

#[test]
fn priority_dropdown() {
    let value = |v: &str| DropdownOption { label: None, value: v.to_string() };
    assert_eq!(get_priority_options(), vec![value("-"), value("A"), value("B"), value("C")]);
    assert_eq!(get_selected_value(None), value("-"));
    assert_eq!(get_selected_value(Some(Priority::C)), value("C"));
    assert_eq!(priority_label(None), "-");
    assert_eq!(priority_label(Some(Priority::A)), "A");
}

#[test]
fn details_labels() {
    let t = stored(1, "one", None);
    assert_eq!(description_label(&t), "d");
    assert_eq!(completed_label(&t), "Task not yet completed");
    let mut t = stored(2, "two", Some("2023-02-03 04:05:06.0"));
    t.description = None;
    assert_eq!(description_label(&t), "");
    assert_eq!(completed_label(&t), "2023-02-03 04:05:06.0");
}

#[test]
fn toggle_edit_loads_the_form() {
    let store = cache();
    let mut form = TodoTask::default();
    let mut editing = false;
    toggle_edit(2, &store, &mut form, &mut editing);
    assert!(editing);
    assert_eq!(form.id, 2);
    assert_eq!(form.title, "two");
    assert_eq!(form.priority, Some(Priority::B));
    assert_eq!(form.description, Some("d".to_string()));
    assert_eq!(form.completed_at, Some("2023-02-03 04:05:06.0".to_string()));
    assert_eq!(form.created_at, None);
    assert_eq!(form.user_id, 0);
    assert_eq!(task_details(2, &store, &form, editing), Some(form.clone()));
    form.title = "edited".to_string();
    assert_eq!(task_details(2, &store, &form, true).unwrap().title, "edited");
    toggle_edit(2, &store, &mut form, &mut editing);
    assert!(!editing);
    assert_eq!(form.title, "two");
    assert_eq!(
        task_details(2, &store, &form, editing),
        Some(stored(2, "two", Some("2023-02-03 04:05:06.0")))
    );
    let before = form.clone();
    toggle_edit(77, &store, &mut form, &mut editing);
    assert!(!editing);
    assert_eq!(form, before);
    assert_eq!(task_details(77, &store, &form, false), None);
}

#[test]
fn details_form_fields() {
    let mut form = stored(1, "one", None);
    edit_task(&mut form, "title", "uno".to_string(), "now".to_string());
    edit_task(&mut form, "priority", "C".to_string(), "now".to_string());
    edit_task(&mut form, "description", String::new(), "now".to_string());
    edit_task(&mut form, "completed", "on".to_string(), "2023-09-09 09:09:09".to_string());
    edit_task(&mut form, "id", "5".to_string(), "now".to_string());
    assert_eq!(form.title, "uno");
    assert_eq!(form.priority, Some(Priority::C));
    assert_eq!(form.description, None);
    assert_eq!(form.completed_at, Some("2023-09-09 09:09:09".to_string()));
    assert_eq!(form.id, 1);
    assert_eq!(form.user_id, 6);
    task_details_changed(&mut form, "completed", String::new());
    assert_eq!(form.completed_at, None);
    task_details_changed(&mut form, "completed", String::new());
    assert!(form.completed());
}

#[test]
fn saving_keeps_the_first_completion_time() {
    let client = ApiClient::new("http://api");
    let store = cache();
    let mut form = stored(2, "two", Some("just now"));
    let request = save_changes(&client, &signed_in(), &store, &mut form).unwrap();
    assert_eq!(form.completed_at, Some("2023-02-03 04:05:06.0".to_string()));
    assert_eq!(request.url, "http://api/tasks/2");
    assert_eq!(request.method, Method::PATCH);
    assert_eq!(request.body, Some(form.to_json()));
    let mut form = stored(1, "one", Some("just now"));
    save_changes(&client, &signed_in(), &store, &mut form);
    assert_eq!(form.completed_at, Some("just now".to_string()));
    let mut form = stored(2, "two", None);
    save_changes(&client, &signed_in(), &store, &mut form);
    assert_eq!(form.completed_at, None);
    let mut form = stored(5, "five", Some("just now"));
    assert_eq!(save_changes(&client, &SessionStore::default(), &store, &mut form), None);
    assert_eq!(form.completed_at, Some("just now".to_string()));
}

#[test]
fn saved_changes_leave_edit_mode_and_invalidate() {
    let mut session = signed_in();
    let mut tasks = cache();
    let mut editing = true;
    assert_eq!(
        changes_saved(Ok(()), 2, &mut session, &mut tasks, &mut editing),
        Ok(Route::TaskDetails { id: 2 })
    );
    assert!(!editing);
    assert!(!tasks.tasks_valid);
    let mut tasks = cache();
    let mut editing = true;
    let shown = changes_saved(
        Err(ApiError::Other("offline".to_string())),
        2,
        &mut session,
        &mut tasks,
        &mut editing,
    )
    .unwrap_err();
    assert_eq!(shown.message, "offline");
    assert!(editing);
    assert_eq!(tasks, cache());
    assert_eq!(session, signed_in());
}

#[test]
fn deleting_from_the_details_page() {
    let client = ApiClient::new("http://api");
    let t = stored(2, "two", None);
    assert_eq!(delete_task(&client, &SessionStore::default(), &t), None);
    let request = delete_task(&client, &signed_in(), &t).unwrap();
    assert_eq!(request.url, "http://api/tasks/2");
    assert_eq!(request.method, Method::DELETE);
    let mut session = signed_in();
    let mut tasks = cache();
    assert_eq!(task_deleted(Ok(()), &mut session, &mut tasks), Ok(Route::Home));
    assert!(!tasks.tasks_valid);
    let mut tasks = cache();
    let shown = task_deleted(
        Err(ApiError::HttpStatus(401, "Unauthorized".to_string())),
        &mut session,
        &mut tasks,
    )
    .unwrap_err();
    assert_eq!(shown.message, "401: Unauthorized");
    assert_eq!(session.user, None);
    assert_eq!(tasks, cache());
}

#[test]
fn task_card_texts() {
    let card = task(&TaskProperties {
        todo_task: TodoTask {
            id: 1,
            title: "t".to_string(),
            priority: Some(Priority::A),
            description: None,
            created_at: Some("2023-01-02 03:04:05.678".to_string()),
            completed_at: Some("2024-12-31 23:59:00.0".to_string()),
            user_id: 1,
        },
    });
    assert_eq!(card.creation_time, "03:04");
    assert_eq!(card.creation_date, "02/01/23");
    assert_eq!(card.completion_time, "23:59");
    assert_eq!(card.completion_date, "31/12/24");
    assert!(!card.hide_completion);
    assert!(card.completed);
    assert_eq!(card.priority, "A");
    assert_eq!(card.description, "Go to task details!");
}

#[test]
fn task_card_without_times() {
    let card = task(&TaskProperties {
        todo_task: TodoTask {
            id: 1,
            title: "t".to_string(),
            priority: None,
            description: Some("d".to_string()),
            created_at: None,
            completed_at: Some("yesterday".to_string()),
            user_id: 1,
        },
    });
    assert_eq!(card.creation_time, "Not yet");
    assert_eq!(card.creation_date, "created!?");
    assert_eq!(card.completion_time, "Not yet");
    assert_eq!(card.completion_date, "completed..");
    assert!(card.hide_completion);
    assert!(card.completed);
    assert_eq!(card.priority, "-");
    assert_eq!(card.description, "d");
}
