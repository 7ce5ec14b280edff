//! The task that a form for a new task fills in.

use crate::api::tasks::todo_task::{Priority, TodoTask, TodoTaskView};
use crate::text::{clone_opt_text, opt_text};
use vstd::prelude::*;

verus! {

/// A task as the form for a new task holds it: what the user can enter,
/// without what the server assigns.
#[derive(Clone, Debug, PartialEq)]
pub struct Task {
    pub id: i32,
    pub title: String,
    pub priority: Option<Priority>,
    pub description: Option<String>,
    pub completed_at: Option<String>,
}

/// What such a task holds, as mathematical values.
pub struct TaskView {
    pub id: i32,
    pub title: Seq<char>,
    pub priority: Option<Priority>,
    pub description: Option<Seq<char>>,
    pub completed_at: Option<Seq<char>>,
}

impl View for Task {
    type V = TaskView;

    open spec fn view(&self) -> TaskView {
        TaskView {
            id: self.id,
            title: self.title@,
            priority: self.priority,
            description: opt_text(self.description),
            completed_at: opt_text(self.completed_at),
        }
    }
}

impl TaskView {
    /// The task that an empty form holds.
    pub open spec fn empty() -> TaskView {
        TaskView {
            id: 0,
            title: Seq::empty(),
            priority: None,
            description: None,
            completed_at: None,
        }
    }

    /// Whether the task is completed.
    pub open spec fn completed(self) -> bool {
        self.completed_at is Some
    }

    /// The task as it is sent to the server: with no creation timestamp,
    /// and with zero for the owner, whom the server knows by the token.
    pub open spec fn to_todo_task(self) -> TodoTaskView {
        TodoTaskView {
            id: self.id,
            title: self.title,
            priority: self.priority,
            description: self.description,
            created_at: None,
            completed_at: self.completed_at,
            user_id: 0,
        }
    }
}

impl Default for Task {
    /// The task that an empty form holds.
    fn default() -> (r: Task)
        ensures
            r@ == TaskView::empty(),
    {
        Task { id: 0, title: String::new(), priority: None, description: None, completed_at: None }
    }
}

impl Task {
    /// Whether the task is completed.
    pub fn completed(&self) -> (r: bool)
        ensures
            r == self@.completed(),
    {
        self.completed_at.is_some()
    }

    /// A copy of the task.
    pub fn duplicate(&self) -> (r: Task)
        ensures
            r@ == self@,
    {
        Task {
            id: self.id,
            title: self.title.clone(),
            priority: self.priority,
            description: clone_opt_text(&self.description),
            completed_at: clone_opt_text(&self.completed_at),
        }
    }

    /// The task as it is sent to the server.
    pub fn into_todo_task(self) -> (r: TodoTask)
        ensures
            r@ == self@.to_todo_task(),
    {
        TodoTask {
            id: self.id,
            title: self.title,
            priority: self.priority,
            description: self.description,
            created_at: None,
            completed_at: self.completed_at,
            user_id: 0,
        }
    }
}

} // verus!
