//! The page that shows one task and lets the user edit or delete it.

use crate::api::api_client::{ApiClient, ApiError, Method, Request};
use crate::api::tasks::tasks_service::{task_request, task_uri, TasksService};
use crate::api::tasks::todo_task::{task_views, Priority, TodoTask, TodoTaskView};
use crate::components::atoms::dropdown::{option_views, unlabelled, DropdownOption, DropdownOptionView};
use crate::components::organisms::tasks::listed;
use crate::components::pages::error_data::{ErrorData, ErrorDataView};
use crate::datetime::local_now;
use crate::router::Route;
use crate::store::{SessionStore, TaskStore};
use crate::text::{clone_opt_text, opt_text};
use crate::utils::{session_after_error, surface_api_error};
use vstd::prelude::*;
use vstd::string::*;

verus! {

/// The text shown for a task that has no priority.
pub const NO_PRIORITY: &'static str = "-";

/// The text shown in place of the completion time of a task that is not
/// completed.
pub const NOT_COMPLETED: &'static str = "Task not yet completed";

/// The text shown for an optional priority: its name, or a dash.
pub open spec fn priority_text(priority: Option<Priority>) -> Seq<char> {
    match priority {
        Some(p) => p.name(),
        None => NO_PRIORITY@,
    }
}

/// The choices of the priority dropdown: no priority, then the priorities
/// by rank.
pub open spec fn priority_options() -> Seq<DropdownOptionView> {
    seq![
        unlabelled(NO_PRIORITY@),
        unlabelled(Priority::A.name()),
        unlabelled(Priority::B.name()),
        unlabelled(Priority::C.name()),
    ]
}

/// The first task of a list that has an identifier; nothing where no task
/// has it.
pub open spec fn first_with_id(tasks: Seq<TodoTaskView>, id: i32) -> Option<TodoTaskView>
    decreases tasks.len(),
{
    if tasks.len() == 0 {
        None
    } else if tasks[0].id == id {
        Some(tasks[0])
    } else {
        first_with_id(tasks.drop_first(), id)
    }
}

/// The task with an identifier as the cache serves it.
pub open spec fn cached_task(store: crate::store::TaskStoreView, id: i32) -> Option<TodoTaskView> {
    first_with_id(listed(store), id)
}

/// The view of an optional task.
pub open spec fn opt_task(task: Option<TodoTask>) -> Option<TodoTaskView> {
    match task {
        Some(t) => Some(t@),
        None => None,
    }
}

impl TodoTaskView {
    /// The task after the field `id` of the form was set to `value`, at the
    /// time `now`. The title is taken as it is; the priority is read
    /// leniently; an empty description is no description; a change of the
    /// completion box switches between completed at `now` and not
    /// completed. A field that the form does not have changes nothing.
    pub open spec fn edited(self, id: Seq<char>, value: Seq<char>, now: Seq<char>) -> TodoTaskView {
        if id == "title"@ {
            TodoTaskView { title: value, ..self }
        } else if id == "priority"@ {
            TodoTaskView { priority: Priority::parsed(value), ..self }
        } else if id == "description"@ {
            TodoTaskView {
                description: if value.len() == 0 {
                    None
                } else {
                    Some(value)
                },
                ..self
            }
        } else if id == "completed"@ {
            TodoTaskView {
                completed_at: if self.completed_at is Some {
                    None
                } else {
                    Some(now)
                },
                ..self
            }
        } else {
            self
        }
    }

    /// The form after it was loaded with a task: it shows what the user can
    /// edit of the task, and keeps its own creation time and owner.
    pub open spec fn loaded_with(self, task: TodoTaskView) -> TodoTaskView {
        TodoTaskView {
            id: task.id,
            title: task.title,
            priority: task.priority,
            description: task.description,
            created_at: self.created_at,
            completed_at: task.completed_at,
            user_id: self.user_id,
        }
    }

    /// The form as it is saved, given the task as the cache holds it: a
    /// task that was completed before and still is keeps the time at which
    /// it was completed.
    pub open spec fn prepared_to_save(self, cached: Option<TodoTaskView>) -> TodoTaskView {
        match cached {
            Some(task) => if self.completed_at is Some && task.completed_at is Some {
                TodoTaskView { completed_at: task.completed_at, ..self }
            } else {
                self
            },
            None => self,
        }
    }
}

/// Applies a change of the form to the task, at a given time.
pub fn edit_task(task: &mut TodoTask, id: &str, value: String, now: String)
    ensures
        final(task)@ == old(task)@.edited(id@, value@, now@),
{
    if id.eq("title") {
        task.title = value;
    } else if id.eq("priority") {
        task.priority = Priority::parse(value.as_str());
    } else if id.eq("description") {
        if value.as_str().is_empty() {
            task.description = None;
        } else {
            task.description = Some(value);
        }
    } else if id.eq("completed") {
        if task.completed() {
            task.completed_at = None;
        } else {
            task.completed_at = Some(now);
        }
    }
}

/// Applies a change of the form to the task. The clock is read only
/// where the change needs the time: where the completion box is turned
/// on.
pub fn task_details_changed(task: &mut TodoTask, id: &str, value: String)
    ensures
        exists|now: Seq<char>| final(task)@ == old(task)@.edited(id@, value@, now),
        id@ != "completed"@ || old(task)@.completed_at is Some ==> final(task)@
            == old(task)@.edited(id@, value@, Seq::empty()),
{
    if id.eq("completed") && !task.completed() {
        let now = local_now();
        edit_task(task, id, value, now);
    } else {
        edit_task(task, id, value, String::new());
    }
}

/// The first task with an identifier among those that the cache serves.
pub fn get_task_by_id(id: i32, store: &TaskStore) -> (r: Option<TodoTask>)
    ensures
        opt_task(r) == cached_task(store@, id),
{
    match store.read() {
        Some(tasks) => {
            let ghost all = task_views(tasks@);
            let mut i: usize = 0;
            assert(all.skip(0) =~= all);
            while i < tasks.len()
                invariant
                    i <= tasks.len(),
                    all == task_views(tasks@),
                    cached_task(store@, id) == first_with_id(all.skip(i as int), id),
                decreases tasks.len() - i,
            {
                assert(all.skip(i as int)[0] == tasks@[i as int]@);
                assert(all.skip(i as int).drop_first() =~= all.skip(i as int + 1));
                if tasks[i].id == id {
                    return Some(tasks[i].duplicate());
                }
                i = i + 1;
            }
            None
        },
        None => None,
    }
}

/// The choice of the priority dropdown that stands for a priority.
pub fn get_selected_value(priority: Option<Priority>) -> (r: DropdownOption)
    ensures
        r@ == unlabelled(priority_text(priority)),
{
    let value = match priority {
        Some(p) => p.to_string(),
        None => String::from_str(NO_PRIORITY),
    };
    DropdownOption::of_value(value)
}

/// The choices of the priority dropdown.
pub fn get_priority_options() -> (r: Vec<DropdownOption>)
    ensures
        option_views(r@) == priority_options(),
{
    let mut result: Vec<DropdownOption> = Vec::new();
    result.push(DropdownOption::of_value(String::from_str(NO_PRIORITY)));
    result.push(DropdownOption::of_value(Priority::A.to_string()));
    result.push(DropdownOption::of_value(Priority::B.to_string()));
    result.push(DropdownOption::of_value(Priority::C.to_string()));
    assert(option_views(result@) =~= priority_options());
    result
}

/// Switches between showing and editing: the form is loaded with the task
/// as the cache serves it, and the mode is switched. Where the cache
/// serves no such task, nothing changes.
pub fn toggle_edit(task_id: i32, store: &TaskStore, task_data: &mut TodoTask, edit_state: &mut bool)
    ensures
        match cached_task(store@, task_id) {
            Some(task) => {
                &&& final(task_data)@ == old(task_data)@.loaded_with(task)
                &&& *final(edit_state) == !*old(edit_state)
            },
            None => {
                &&& final(task_data)@ == old(task_data)@
                &&& *final(edit_state) == *old(edit_state)
            },
        },
{
    match get_task_by_id(task_id, store) {
        Some(task) => {
            task_data.id = task.id;
            task_data.title = task.title;
            task_data.priority = task.priority;
            task_data.description = task.description;
            task_data.completed_at = task.completed_at;
            *edit_state = !*edit_state;
        },
        None => {},
    }
}

/// The task that the page shows: the form while it is edited, else the
/// task as the cache serves it.
pub fn task_details(task_id: i32, store: &TaskStore, task_data: &TodoTask, edit_state: bool) -> (r:
    Option<TodoTask>)
    ensures
        opt_task(r) == (if edit_state {
            Some(task_data@)
        } else {
            cached_task(store@, task_id)
        }),
{
    if edit_state {
        Some(task_data.duplicate())
    } else {
        get_task_by_id(task_id, store)
    }
}

/// The request that saves the form: none while nobody is signed in. Before
/// it is sent, a task that was completed before and still is gets back the
/// time at which it was completed.
pub fn save_changes(
    client: &ApiClient,
    session: &SessionStore,
    store: &TaskStore,
    task_data: &mut TodoTask,
) -> (r: Option<Request>)
    ensures
        final(task_data)@ == old(task_data)@.prepared_to_save(
            cached_task(store@, old(task_data).id),
        ),
        match session@.token() {
            Some(token) => r matches Some(request) && request@ == task_request(
                *client,
                task_uri(final(task_data).id),
                Method::PATCH,
                Some(final(task_data)@.body()),
                token,
            ),
            None => r is None,
        },
{
    match get_task_by_id(task_data.id, store) {
        Some(task) => {
            if task_data.completed() && task.completed() {
                task_data.completed_at = task.completed_at;
            }
        },
        None => {},
    }
    match session.token() {
        Some(token) => Some(TasksService::update_task_request(client, token, task_data.duplicate())),
        None => None,
    }
}

/// Takes in the answer to a save. On success the page shows the task
/// again, no longer editing, and the cache is stale. A failure is
/// surfaced: the cache and the mode stay as they were, and the result is
/// the banner that shows the error.
pub fn changes_saved(
    response: Result<(), ApiError>,
    task_id: i32,
    session: &mut SessionStore,
    task_store: &mut TaskStore,
    edit_state: &mut bool,
) -> (r: Result<Route, ErrorData>)
    ensures
        match response {
            Ok(_) => {
                &&& final(session)@ == old(session)@
                &&& final(task_store)@ == old(task_store)@.invalidated()
                &&& !*final(edit_state)
                &&& r == Ok::<Route, ErrorData>(Route::TaskDetails { id: task_id })
            },
            Err(error) => {
                &&& final(session)@ == session_after_error(old(session)@, error@)
                &&& final(task_store)@ == old(task_store)@
                &&& *final(edit_state) == *old(edit_state)
                &&& r matches Err(shown) && shown@ == ErrorDataView::raised(
                    error@.message(),
                    shown.uuid,
                )
            },
        },
{
    match response {
        Ok(_) => {
            task_store.invalidate();
            *edit_state = false;
            Ok(Route::TaskDetails { id: task_id })
        },
        Err(error) => Err(surface_api_error(&error, session)),
    }
}

/// The request that deletes the task: none while nobody is signed in.
pub fn delete_task(client: &ApiClient, session: &SessionStore, task: &TodoTask) -> (r: Option<
    Request,
>)
    ensures
        match session@.token() {
            Some(token) => r matches Some(request) && request@ == task_request(
                *client,
                task_uri(task.id),
                Method::DELETE,
                None,
                token,
            ),
            None => r is None,
        },
{
    match session.token() {
        Some(token) => Some(TasksService::delete_task_request(client, token, task.id)),
        None => None,
    }
}

/// Takes in the answer to a deletion made on this page. On success the
/// cache is stale and the home page is next. A failure is surfaced: the
/// cache stays as it was, and the result is the banner that shows the
/// error.
pub fn task_deleted(
    response: Result<(), ApiError>,
    session: &mut SessionStore,
    task_store: &mut TaskStore,
) -> (r: Result<Route, ErrorData>)
    ensures
        match response {
            Ok(_) => {
                &&& final(session)@ == old(session)@
                &&& final(task_store)@ == old(task_store)@.invalidated()
                &&& r == Ok::<Route, ErrorData>(Route::Home)
            },
            Err(error) => {
                &&& final(session)@ == session_after_error(old(session)@, error@)
                &&& final(task_store)@ == old(task_store)@
                &&& r matches Err(shown) && shown@ == ErrorDataView::raised(
                    error@.message(),
                    shown.uuid,
                )
            },
        },
{
    match response {
        Ok(_) => {
            task_store.invalidate();
            Ok(Route::Home)
        },
        Err(error) => Err(surface_api_error(&error, session)),
    }
}

/// The text shown for the priority of a task.
pub fn priority_label(priority: Option<Priority>) -> (r: String)
    ensures
        r@ == priority_text(priority),
{
    match priority {
        Some(p) => p.to_string(),
        None => String::from_str(NO_PRIORITY),
    }
}

/// The text shown for the description of a task: empty where it has none.
pub fn description_label(task: &TodoTask) -> (r: String)
    ensures
        r@ == (match task@.description {
            Some(text) => text,
            None => Seq::<char>::empty(),
        }),
{
    match &task.description {
        Some(text) => text.clone(),
        None => String::new(),
    }
}

/// The text shown for the completion of a task: the time as the server
/// wrote it, or a notice that the task is not completed.
pub fn completed_label(task: &TodoTask) -> (r: String)
    ensures
        r@ == (match task@.completed_at {
            Some(text) => text,
            None => NOT_COMPLETED@,
        }),
{
    match &task.completed_at {
        Some(text) => text.clone(),
        None => String::from_str(NOT_COMPLETED),
    }
}

/// The heading of the page: the title of the task as the cache serves it,
/// and no text where the cache serves no such task.
pub fn session_title(task_id: i32, store: &TaskStore) -> (r: String)
    ensures
        r@ == (match cached_task(store@, task_id) {
            Some(task) => task.title,
            None => Seq::<char>::empty(),
        }),
{
    match get_task_by_id(task_id, store) {
        Some(task) => task.title,
        None => String::new(),
    }
}

} // verus!
