use todo_client::api::api_client::ApiError;
use todo_client::api::auth::auth::Auth;
use todo_client::api::tasks::todo_task::TodoTask;
use todo_client::components::pages::error_data::ErrorData;
use todo_client::store::{SessionStore, TaskStore};
use todo_client::utils::{handle_api_error, raise_api_error, show_api_error, surface_api_error};

fn alice() -> Auth {
    Auth { username: "alice".to_string(), token: "t1".to_string() }
}

fn task(id: i32) -> TodoTask {
    let mut t = TodoTask::default();
    t.id = id;
    t
}

#[test]
fn cache_starts_invalid() {
    let store = TaskStore::default();
    assert_eq!(store.tasks, None);
    assert!(!store.tasks_valid);
    assert!(store.needs_fetch());
    assert!(store.read().is_none());
}

#[test]
fn fetched_list_is_served_without_a_fetch() {
    let mut store = TaskStore::default();
    store.store_fetched(vec![task(1), task(2)]);
    assert!(store.tasks_valid);
    assert!(!store.needs_fetch());
    assert_eq!(store.read(), Some(&vec![task(1), task(2)]));
}

#[test]
fn mutation_forces_a_refetch() {
    let mut store = TaskStore::default();
    store.store_fetched(vec![task(1)]);
    store.invalidate();
    assert!(!store.tasks_valid);
    assert!(store.needs_fetch());
    assert!(store.read().is_none());
    store.invalidate();
    assert!(store.read().is_none());
    store.store_fetched(vec![task(1), task(3)]);
    assert_eq!(store.read(), Some(&vec![task(1), task(3)]));
}

#[test]
fn clear_forgets_the_list() {
    let mut store = TaskStore::default();
    store.store_fetched(vec![task(1)]);
    store.clear();
    assert_eq!(store, TaskStore::default());
}

#[test]
fn validity_flag_alone_decides_whether_to_fetch() {
    let store = TaskStore { tasks: None, tasks_valid: true, fetch_in_flight: false };
    assert!(store.read().is_none());
    assert!(!store.needs_fetch());
    let store = TaskStore { tasks: Some(vec![task(1)]), tasks_valid: false, fetch_in_flight: false };
    assert!(store.read().is_none());
    assert!(store.needs_fetch());
}

#[test]
fn fetch_under_way_is_not_started_again() {
    let mut store = TaskStore::default();
    assert!(store.begin_fetch());
    assert!(store.fetch_in_flight);
    assert!(!store.needs_fetch());
    assert!(!store.begin_fetch());
    assert!(store.fetch_in_flight);
    store.fetch_failed();
    assert!(!store.fetch_in_flight);
    assert!(!store.tasks_valid);
    assert!(store.begin_fetch());
    store.store_fetched(vec![task(1)]);
    assert!(!store.fetch_in_flight);
    assert!(!store.begin_fetch());
    assert_eq!(store.read(), Some(&vec![task(1)]));
}

#[test]
fn mutation_during_a_fetch_asks_for_a_new_one() {
    let mut store = TaskStore::default();
    assert!(store.begin_fetch());
    store.invalidate();
    assert!(!store.fetch_in_flight);
    assert!(store.needs_fetch());
}

#[test]
fn session_reducers() {
    let mut session = SessionStore::default();
    assert_eq!(session.user, None);
    assert_eq!(session.theme, None);
    assert_eq!(session.token(), None);
    session.set_theme("Neon".to_string());
    session.login(alice());
    assert_eq!(session.user, Some(alice()));
    assert_eq!(session.token(), Some("t1".to_string()));
    assert_eq!(session.theme, Some("Neon".to_string()));
    session.logout();
    assert_eq!(session.user, None);
    assert_eq!(session.theme, Some("Neon".to_string()));
}

#[test]
fn banner_default_shows_nothing() {
    let banner = ErrorData::default();
    assert_eq!(banner.message, "");
    assert!(!banner.display);
    assert_eq!(banner.uuid, 0);
}

#[test]
fn banner_timer_carries_the_token() {
    let banner = ErrorData::raise("boom".to_string(), 17);
    assert_eq!(banner.timer(), (5000, 17));
}

#[test]
fn banner_expires_under_its_own_token() {
    let banner = ErrorData::raise("boom".to_string(), 17);
    assert_eq!(banner, ErrorData { message: "boom".to_string(), display: true, uuid: 17 });
    assert_eq!(banner.expire(17), ErrorData::default());
}

#[test]
fn newer_error_outlives_older_timer() {
    let a = ErrorData::raise("A".to_string(), 1);
    assert!(a.display);
    let b = ErrorData::raise("B".to_string(), 2);
    let after_a_timer = b.expire(1);
    assert_eq!(after_a_timer, ErrorData { message: "B".to_string(), display: true, uuid: 2 });
    assert_eq!(after_a_timer.expire(2), ErrorData::default());
}

#[test]
fn unauthorized_signs_the_user_out() {
    let mut session = SessionStore { user: Some(alice()), theme: Some("Neon".to_string()) };
    let error = ApiError::HttpStatus(401, "Unauthorized".to_string());
    let shown = raise_api_error(&error, &mut session, Some(ErrorData::default()), 9);
    assert_eq!(session.user, None);
    assert_eq!(session.theme, Some("Neon".to_string()));
    assert_eq!(
        shown,
        Some(ErrorData { message: "401: Unauthorized".to_string(), display: true, uuid: 9 })
    );
}

#[test]
fn other_errors_keep_the_session() {
    for error in [
        ApiError::HttpStatus(400, "Bad Request".to_string()),
        ApiError::HttpStatus(403, "Forbidden".to_string()),
        ApiError::HttpStatus(500, "Internal Server Error".to_string()),
        ApiError::Parse("bad body".to_string()),
        ApiError::Other("offline".to_string()),
    ] {
        let mut session = SessionStore { user: Some(alice()), theme: None };
        let shown = raise_api_error(&error, &mut session, None, 3);
        assert_eq!(session.user, Some(alice()));
        assert_eq!(shown, None);
    }
}

#[test]
fn handled_errors_get_a_token_of_their_own() {
    let mut session = SessionStore { user: Some(alice()), theme: None };
    let error = ApiError::Other("offline".to_string());
    let first = handle_api_error(&error, &mut session, Some(ErrorData::default())).unwrap();
    let second = handle_api_error(&error, &mut session, Some(ErrorData::default())).unwrap();
    assert_eq!(first.message, "offline");
    assert!(first.display);
    assert_ne!(first.uuid, second.uuid);
    assert_ne!(first.uuid, 0);
    assert_eq!(handle_api_error(&error, &mut session, None), None);
    assert_eq!(session.user, Some(alice()));
    let survived = second.clone().expire(first.uuid);
    assert_eq!(survived, second);
}

#[test]
fn surfaced_errors_always_show() {
    let mut session = SessionStore { user: Some(alice()), theme: None };
    let shown =
        surface_api_error(&ApiError::HttpStatus(401, "Unauthorized".to_string()), &mut session);
    assert_eq!(shown.message, "401: Unauthorized");
    assert!(shown.display);
    assert_eq!(session.user, None);
    let shown = show_api_error(&ApiError::Parse("p".to_string()));
    assert_eq!(shown.message, "p");
    assert!(shown.display);
}
