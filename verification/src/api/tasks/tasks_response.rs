//! The bodies with which the server answers the operations on tasks.

use crate::api::tasks::todo_task::{task_views, TodoTask, TodoTaskView};
use crate::json::{as_array, json_items, json_member, member, FromJson};
use vstd::prelude::*;

verus! {

/// The answer to a request for all tasks.
#[derive(Clone, Debug, PartialEq)]
pub struct TasksResponse {
    pub data: Vec<TodoTask>,
}

/// The answer to a request that concerns one task.
#[derive(Clone, Debug, PartialEq)]
pub struct TaskResponse {
    pub data: TodoTask,
}

impl View for TasksResponse {
    type V = Seq<TodoTaskView>;

    open spec fn view(&self) -> Seq<TodoTaskView> {
        task_views(self.data@)
    }
}

impl View for TaskResponse {
    type V = TodoTaskView;

    open spec fn view(&self) -> TodoTaskView {
        self.data@
    }
}

/// The tasks that a sequence of JSON values holds, if each of them has the
/// shape of a task.
pub open spec fn decoded_tasks(items: Seq<serde_json::Value>) -> Option<Seq<TodoTaskView>> {
    if forall|i: int| 0 <= i < items.len() ==> (#[trigger] TodoTask::decoded(items[i])) is Some {
        Some(Seq::new(items.len(), |i: int| TodoTask::decoded(items[i])->0))
    } else {
        None
    }
}

fn read_tasks(items: &Vec<serde_json::Value>) -> (r: Option<Vec<TodoTask>>)
    ensures
        match r {
            Some(tasks) => decoded_tasks(items@) == Some(task_views(tasks@)),
            None => decoded_tasks(items@) is None,
        },
{
    let mut tasks: Vec<TodoTask> = Vec::new();
    let mut i: usize = 0;
    while i < items.len()
        invariant
            i <= items.len(),
            tasks.len() == i,
            forall|j: int| 0 <= j < i ==> TodoTask::decoded(#[trigger] items[j]) == Some(tasks[j]@),
        decreases items.len() - i,
    {
        match TodoTask::from_json(&items[i]) {
            Some(task) => {
                tasks.push(task);
            },
            None => {
                return None;
            },
        }
        i = i + 1;
    }
    assert(task_views(tasks@) =~= Seq::new(
        items@.len(),
        |i: int| TodoTask::decoded(items@[i])->0,
    ));
    Some(tasks)
}

impl FromJson for TasksResponse {
    /// The answer is an object whose `data` is an array of tasks.
    open spec fn decoded(value: serde_json::Value) -> Option<Seq<TodoTaskView>> {
        match json_member(value, "data"@) {
            Some(data) => match json_items(data) {
                Some(items) => decoded_tasks(items),
                None => None,
            },
            None => None,
        }
    }

    fn from_json(value: &serde_json::Value) -> (r: Option<TasksResponse>) {
        match member(value, "data") {
            Some(data) => match as_array(data) {
                Some(items) => match read_tasks(items) {
                    Some(tasks) => Some(TasksResponse { data: tasks }),
                    None => None,
                },
                None => None,
            },
            None => None,
        }
    }
}

impl FromJson for TaskResponse {
    /// The answer is an object whose `data` is a task.
    open spec fn decoded(value: serde_json::Value) -> Option<TodoTaskView> {
        match json_member(value, "data"@) {
            Some(data) => TodoTask::decoded(data),
            None => None,
        }
    }

    fn from_json(value: &serde_json::Value) -> (r: Option<TaskResponse>) {
        match member(value, "data") {
            Some(data) => match TodoTask::from_json(data) {
                Some(task) => Some(TaskResponse { data: task }),
                None => None,
            },
            None => None,
        }
    }
}

} // verus!
