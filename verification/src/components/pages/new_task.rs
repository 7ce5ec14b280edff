//! The page on which a user enters a new task.

use crate::api::api_client::{ApiClient, ApiError, Method, Request};
use crate::api::tasks::task::{Task, TaskView};
use crate::api::tasks::tasks_service::{task_request, TasksService, TASKS_URI};
use crate::api::tasks::todo_task::{Priority, TodoTask};
use crate::components::pages::error_data::{ErrorData, ErrorDataView};
use crate::datetime::local_now;
use crate::router::Route;
use crate::store::{SessionStore, TaskStore};
use crate::text::opt_text;
use crate::utils::{session_after_error, surface_api_error};
use vstd::prelude::*;

verus! {

impl TaskView {
    /// The task after the field `id` of the form was set to `value`, at the
    /// time `now`. The title is taken as it is; the priority is read
    /// leniently; an empty description is no description; a change of the
    /// completion box switches between completed at `now` and not
    /// completed. A field that the form does not have changes nothing.
    pub open spec fn edited(self, id: Seq<char>, value: Seq<char>, now: Seq<char>) -> TaskView {
        if id == "title"@ {
            TaskView { title: value, ..self }
        } else if id == "priority"@ {
            TaskView { priority: Priority::parsed(value), ..self }
        } else if id == "description"@ {
            TaskView {
                description: if value.len() == 0 {
                    None
                } else {
                    Some(value)
                },
                ..self
            }
        } else if id == "completed"@ {
            TaskView {
                completed_at: if self.completed_at is Some {
                    None
                } else {
                    Some(now)
                },
                ..self
            }
        } else {
            self
        }
    }
}

/// Applies a change of the form to the task, at a given time.
pub fn edit_task(task: &mut Task, id: &str, value: String, now: String)
    ensures
        final(task)@ == old(task)@.edited(id@, value@, now@),
{
    if id.eq("title") {
        task.title = value;
    } else if id.eq("priority") {
        task.priority = Priority::parse(value.as_str());
    } else if id.eq("description") {
        if value.as_str().is_empty() {
            task.description = None;
        } else {
            task.description = Some(value);
        }
    } else if id.eq("completed") {
        if task.completed() {
            task.completed_at = None;
        } else {
            task.completed_at = Some(now);
        }
    }
}

/// Applies a change of the form to the task. The clock is read only
/// where the change needs the time: where the completion box is turned
/// on.
pub fn new_task_changed(task: &mut Task, id: &str, value: String)
    ensures
        exists|now: Seq<char>| final(task)@ == old(task)@.edited(id@, value@, now),
        id@ != "completed"@ || old(task)@.completed_at is Some ==> final(task)@
            == old(task)@.edited(id@, value@, Seq::empty()),
{
    if id.eq("completed") && !task.completed() {
        let now = local_now();
        edit_task(task, id, value, now);
    } else {
        edit_task(task, id, value, String::new());
    }
}

/// The request that the form sends when it is submitted: none while nobody
/// is signed in.
pub fn new_task_submitted(client: &ApiClient, session: &SessionStore, task: &Task) -> (r: Option<
    Request,
>)
    ensures
        match session@.token() {
            Some(token) => r matches Some(request) && request@ == task_request(
                *client,
                TASKS_URI@,
                Method::POST,
                Some(task@.to_todo_task().body()),
                token,
            ),
            None => r is None,
        },
{
    match session.token() {
        Some(token) => Some(
            TasksService::create_task_request(client, token, task.duplicate().into_todo_task()),
        ),
        None => None,
    }
}

/// Takes in the answer to a creation. On success the cache is stale and the
/// home page is next. A failure is surfaced: the cache stays as it was,
/// and the result is the banner that shows the error.
pub fn new_task_answered(
    response: Result<TodoTask, ApiError>,
    session: &mut SessionStore,
    task_store: &mut TaskStore,
) -> (r: Result<Route, ErrorData>)
    ensures
        match response {
            Ok(_) => {
                &&& final(session)@ == old(session)@
                &&& final(task_store)@ == old(task_store)@.invalidated()
                &&& r == Ok::<Route, ErrorData>(Route::Home)
            },
            Err(error) => {
                &&& final(session)@ == session_after_error(old(session)@, error@)
                &&& final(task_store)@ == old(task_store)@
                &&& r matches Err(shown) && shown@ == ErrorDataView::raised(
                    error@.message(),
                    shown.uuid,
                )
            },
        },
{
    match response {
        Ok(_) => {
            task_store.invalidate();
            Ok(Route::Home)
        },
        Err(error) => Err(surface_api_error(&error, session)),
    }
}

} // verus!
