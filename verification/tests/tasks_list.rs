use todo_client::api::api_client::{ApiClient, ApiError, Method};
use todo_client::api::auth::auth::Auth;
use todo_client::api::tasks::todo_task::{Priority, TodoTask};
use todo_client::components::atoms::dropdown::DropdownOption;
use todo_client::components::organisms::tasks::{
    delete_task_callback, filter_tasks, get_filter, get_filter_options,
    get_filter_selected_option, get_sort, get_sort_options, get_sort_selected_option, sort_tasks,
    task_changed, tasks, tasks_fetched, toggle_completed_callback, update_tasks_in_store,
    FilterMode, SortMode,
};
use todo_client::components::pages::error_data::ErrorData;
use todo_client::store::{SessionStore, TaskStore};
use todo_client::text::{compare_bytes, compare_text, Order};

fn task(id: i32, title: &str, priority: Option<Priority>, completed: bool) -> TodoTask {
    TodoTask {
        id,
        title: title.to_string(),
        priority,
        description: None,
        created_at: None,
        completed_at: if completed { Some("2023-01-01 00:00:00.0".to_string()) } else { None },
        user_id: 1,
    }
}

fn ids(tasks: &[TodoTask]) -> Vec<i32> {
    tasks.iter().map(|t| t.id).collect()
}

fn sample() -> Vec<TodoTask> {
    vec![
        task(5, "pear", None, false),
        task(2, "Apple", Some(Priority::B), true),
        task(9, "banana", Some(Priority::A), false),
        task(1, "apple", Some(Priority::C), true),
        task(7, "Cherry", None, true),
        task(3, "cherry", Some(Priority::A), false),
        task(4, "Banana", Some(Priority::B), false),
    ]
}

#[test]
fn bytes_are_compared_lexicographically() {
    assert_eq!(compare_bytes(b"", b""), Order::Equal);
    assert_eq!(compare_bytes(b"", b"a"), Order::Less);
    assert_eq!(compare_bytes(b"a", b""), Order::Greater);
    assert_eq!(compare_bytes(b"ab", b"abc"), Order::Less);
    assert_eq!(compare_bytes(b"abd", b"abc"), Order::Greater);
    assert_eq!(compare_bytes(b"b", b"abc"), Order::Greater);
    assert_eq!(compare_bytes(b"same", b"same"), Order::Equal);
}

#[test]
fn text_order_agrees_with_the_order_of_strings() {
    let words = ["", "a", "A", "ab", "b", "zebra", "\u{e9}t\u{e9}", "\u{4e2d}", "\u{1f600}", "z"];
    for a in words {
        for b in words {
            let expected = if a < b {
                Order::Less
            } else if a > b {
                Order::Greater
            } else {
                Order::Equal
            };
            assert_eq!(compare_text(a, b), expected);
        }
    }
}

#[test]
fn sort_by_creation_orders_by_id() {
    let sorted = sort_tasks(sample(), SortMode::Created);
    assert_eq!(ids(&sorted), vec![1, 2, 3, 4, 5, 7, 9]);
}

#[test]
fn sort_by_priority_is_stable_and_puts_unranked_last() {
    let sorted = sort_tasks(sample(), SortMode::Priority);
    assert_eq!(ids(&sorted), vec![9, 3, 2, 4, 1, 5, 7]);
}

#[test]
fn sort_by_title_ignores_case_and_is_stable() {
    let sorted = sort_tasks(sample(), SortMode::Title);
    assert_eq!(ids(&sorted), vec![2, 1, 9, 4, 7, 3, 5]);
}

#[test]
fn sort_agrees_with_the_stable_sort_of_slices() {
    for mode in [SortMode::Title, SortMode::Priority, SortMode::Created] {
        let mut expected = sample();
        expected.sort_by(|a, b| match mode {
            SortMode::Title => a.title.to_lowercase().cmp(&b.title.to_lowercase()),
            SortMode::Priority => {
                let rank = |t: &TodoTask| match t.priority {
                    Some(Priority::A) => 0,
                    Some(Priority::B) => 1,
                    Some(Priority::C) => 2,
                    None => 3,
                };
                rank(a).cmp(&rank(b))
            }
            SortMode::Created => a.id.cmp(&b.id),
        });
        assert_eq!(sort_tasks(sample(), mode), expected);
    }
}

#[test]
fn sort_of_nothing_and_of_one() {
    assert_eq!(sort_tasks(vec![], SortMode::Title), vec![]);
    let one = vec![task(1, "t", None, false)];
    assert_eq!(sort_tasks(one.clone(), SortMode::Priority), one);
}

#[test]
fn get_sort_compares_two_tasks() {
    let a = task(1, "b", Some(Priority::A), false);
    let b = task(2, "A", None, false);
    assert_eq!(get_sort(SortMode::Created, &a, &b), Order::Less);
    assert_eq!(get_sort(SortMode::Created, &b, &a), Order::Greater);
    assert_eq!(get_sort(SortMode::Created, &a, &a), Order::Equal);
    assert_eq!(get_sort(SortMode::Priority, &a, &b), Order::Less);
    assert_eq!(get_sort(SortMode::Priority, &b, &a), Order::Greater);
    assert_eq!(get_sort(SortMode::Priority, &b, &b), Order::Equal);
    assert_eq!(get_sort(SortMode::Title, &a, &b), Order::Greater);
    assert_eq!(get_sort(SortMode::Title, &b, &a), Order::Less);
    let c = task(3, "a", None, false);
    assert_eq!(get_sort(SortMode::Title, &b, &c), Order::Equal);
}

#[test]
fn filters_keep_the_order() {
    assert_eq!(ids(&filter_tasks(sample(), FilterMode::All)), vec![5, 2, 9, 1, 7, 3, 4]);
    assert_eq!(ids(&filter_tasks(sample(), FilterMode::CompletedTasks)), vec![2, 1, 7]);
    assert_eq!(ids(&filter_tasks(sample(), FilterMode::IncompletedTasks)), vec![5, 9, 3, 4]);
    assert_eq!(ids(&filter_tasks(sample(), FilterMode::PriorityA)), vec![9, 3]);
    assert_eq!(ids(&filter_tasks(sample(), FilterMode::PriorityB)), vec![2, 4]);
    assert_eq!(ids(&filter_tasks(sample(), FilterMode::PriorityC)), vec![1]);
    assert_eq!(filter_tasks(vec![], FilterMode::PriorityC), vec![]);
}

#[test]
fn get_filter_on_one_task() {
    let t = task(1, "t", Some(Priority::B), false);
    assert_eq!(get_filter(FilterMode::All, &t), Some(t.clone()));
    assert_eq!(get_filter(FilterMode::PriorityB, &t), Some(t.clone()));
    assert_eq!(get_filter(FilterMode::PriorityA, &t), None);
    assert_eq!(get_filter(FilterMode::CompletedTasks, &t), None);
    assert_eq!(get_filter(FilterMode::IncompletedTasks, &t), Some(t.clone()));
}

#[test]
fn dropdown_values_are_read() {
    assert_eq!(FilterMode::from_value("completed"), FilterMode::CompletedTasks);
    assert_eq!(FilterMode::from_value("incompleted"), FilterMode::IncompletedTasks);
    assert_eq!(FilterMode::from_value("priority-a"), FilterMode::PriorityA);
    assert_eq!(FilterMode::from_value("priority-b"), FilterMode::PriorityB);
    assert_eq!(FilterMode::from_value("priority-c"), FilterMode::PriorityC);
    assert_eq!(FilterMode::from_value("none"), FilterMode::All);
    assert_eq!(FilterMode::from_value("Completed"), FilterMode::All);
    assert_eq!(SortMode::from_value("title"), SortMode::Title);
    assert_eq!(SortMode::from_value("priority"), SortMode::Priority);
    assert_eq!(SortMode::from_value("created"), SortMode::Created);
    assert_eq!(SortMode::from_value(""), SortMode::Created);
}

#[test]
fn dropdown_options() {
    let option = |label: &str, value: &str| DropdownOption {
        label: Some(label.to_string()),
        value: value.to_string(),
    };
    assert_eq!(
        get_filter_options(),
        vec![
            option("None", "none"),
            option("Completed tasks", "completed"),
            option("Incompleted tasks", "incompleted"),
            option("Priority A", "priority-a"),
            option("Priority B", "priority-b"),
            option("Priority C", "priority-c"),
        ]
    );
    assert_eq!(
        get_sort_options(),
        vec![
            option("Title", "title"),
            option("Priority", "priority"),
            option("Creation time", "created"),
        ]
    );
    assert_eq!(get_filter_selected_option(), option("None", "none"));
    assert_eq!(get_sort_selected_option(), option("Creation time", "created"));
    for o in get_filter_options() {
        let mode = FilterMode::from_value(&o.value);
        assert_eq!(mode == FilterMode::All, o.value == "none");
    }
}

#[test]
fn shown_tasks_are_filtered_then_sorted() {
    let mut store = TaskStore::default();
    assert_eq!(tasks(&store, FilterMode::All, SortMode::Created), vec![]);
    store.store_fetched(sample());
    assert_eq!(ids(&tasks(&store, FilterMode::All, SortMode::Created)), vec![1, 2, 3, 4, 5, 7, 9]);
    assert_eq!(ids(&tasks(&store, FilterMode::CompletedTasks, SortMode::Title)), vec![2, 1, 7]);
    store.invalidate();
    assert_eq!(tasks(&store, FilterMode::All, SortMode::Created), vec![]);
}

#[test]
fn read_fetches_only_while_invalid() {
    let client = ApiClient::new("http://api");
    let mut store = TaskStore::default();
    let request = update_tasks_in_store(&client, "t1".to_string(), &mut store).unwrap();
    assert_eq!(request.url, "http://api/tasks");
    assert_eq!(request.method, Method::GET);
    store.store_fetched(vec![]);
    let before = store.clone();
    assert_eq!(update_tasks_in_store(&client, "t1".to_string(), &mut store), None);
    assert_eq!(store, before);
    store.invalidate();
    assert!(update_tasks_in_store(&client, "t1".to_string(), &mut store).is_some());
}

#[test]
fn read_with_valid_flag_and_no_list_does_not_fetch() {
    let client = ApiClient::new("http://api");
    let mut store = TaskStore { tasks: None, tasks_valid: true, fetch_in_flight: false };
    assert_eq!(update_tasks_in_store(&client, "t1".to_string(), &mut store), None);
    assert_eq!(store, TaskStore { tasks: None, tasks_valid: true, fetch_in_flight: false });
    assert_eq!(tasks(&store, FilterMode::All, SortMode::Created), vec![]);
}

#[test]
fn second_read_during_a_fetch_does_not_fetch_again() {
    let client = ApiClient::new("http://api");
    let mut store = TaskStore::default();
    let mut session = SessionStore::default();
    assert!(update_tasks_in_store(&client, "t1".to_string(), &mut store).is_some());
    assert!(store.fetch_in_flight);
    let during = store.clone();
    assert_eq!(update_tasks_in_store(&client, "t1".to_string(), &mut store), None);
    assert_eq!(update_tasks_in_store(&client, "t1".to_string(), &mut store), None);
    assert_eq!(store, during);
    tasks_fetched(Ok(sample()), &mut store, &mut session, None);
    assert!(store.tasks_valid);
    assert!(!store.fetch_in_flight);
    assert_eq!(store.read(), Some(&sample()));
    assert_eq!(update_tasks_in_store(&client, "t1".to_string(), &mut store), None);
}

#[test]
fn failed_fetch_can_be_tried_again() {
    let client = ApiClient::new("http://api");
    let mut store = TaskStore::default();
    let mut session = SessionStore::default();
    assert!(update_tasks_in_store(&client, "t1".to_string(), &mut store).is_some());
    tasks_fetched(Err(ApiError::Other("offline".to_string())), &mut store, &mut session, None);
    assert_eq!(store, TaskStore::default());
    assert!(update_tasks_in_store(&client, "t1".to_string(), &mut store).is_some());
}

#[test]
fn fetched_tasks_make_the_cache_valid() {
    let mut store = TaskStore::default();
    let mut session = SessionStore::default();
    let shown = tasks_fetched(Ok(sample()), &mut store, &mut session, Some(ErrorData::default()));
    assert_eq!(shown, None);
    assert!(store.tasks_valid);
    assert_eq!(store.tasks, Some(sample()));
}

#[test]
fn failed_fetch_leaves_the_cache_invalid() {
    let mut store = TaskStore::default();
    let user = Auth { username: "alice".to_string(), token: "t1".to_string() };
    let mut session = SessionStore { user: Some(user.clone()), theme: None };
    let shown = tasks_fetched(
        Err(ApiError::Other("offline".to_string())),
        &mut store,
        &mut session,
        Some(ErrorData::default()),
    )
    .unwrap();
    assert_eq!(store, TaskStore::default());
    assert_eq!(session.user, Some(user));
    assert_eq!(shown.message, "offline");
    assert!(shown.display);
}

#[test]
fn each_successful_mutation_invalidates() {
    let mut store = TaskStore::default();
    let mut session = SessionStore::default();
    store.store_fetched(sample());
    assert_eq!(task_changed(Ok(()), &mut store, &mut session, None), None);
    assert!(!store.tasks_valid);
    assert_eq!(store.tasks, Some(sample()));
    assert!(store.read().is_none());
}

#[test]
fn failed_mutation_keeps_the_cache() {
    let mut store = TaskStore::default();
    let mut session = SessionStore::default();
    store.store_fetched(sample());
    let shown = task_changed(
        Err(ApiError::HttpStatus(500, "Internal Server Error".to_string())),
        &mut store,
        &mut session,
        None,
    );
    assert_eq!(shown, None);
    assert!(store.tasks_valid);
    assert_eq!(store.read(), Some(&sample()));
}

#[test]
fn button_requests() {
    let client = ApiClient::new("http://api");
    let t = task(8, "t", None, false);
    let r = delete_task_callback(&client, &t, "tok".to_string());
    assert_eq!(r.url, "http://api/tasks/8");
    assert_eq!(r.method, Method::DELETE);
    let r = toggle_completed_callback(&client, 8, "tok".to_string());
    assert_eq!(r.url, "http://api/tasks/8/completed");
    assert_eq!(r.method, Method::PATCH);
}
