//! The card that shows one task in the list.

use crate::api::tasks::todo_task::{timestamp_of, TodoTask, TodoTaskView};
use crate::components::pages::task_details::{priority_label, priority_text};
use crate::datetime::Timestamp;
use vstd::prelude::*;
use vstd::string::*;

verus! {

/// What a card is made from: the task. What happens on a click is the
/// page's to say and is not held here.
#[derive(Clone, Debug, PartialEq)]
pub struct TaskProperties {
    pub todo_task: TodoTask,
}

/// The first line shown in place of a time that is not known.
pub const NOT_YET: &'static str = "Not yet";

/// The second line shown in place of a creation time that is not known.
pub const CREATION_UNKNOWN: &'static str = "created!?";

/// The second line shown in place of a completion time that is not known.
pub const COMPLETION_UNKNOWN: &'static str = "completed..";

/// The text shown in place of a description.
pub const NO_DESCRIPTION: &'static str = "Go to task details!";

/// The texts of a card.
#[derive(Clone, Debug, PartialEq)]
pub struct TaskCard {
    pub creation_time: String,
    pub creation_date: String,
    pub completion_time: String,
    pub completion_date: String,
    /// Whether the completion is hidden, which it is while it is not known.
    pub hide_completion: bool,
    pub priority: String,
    pub description: String,
    pub completed: bool,
}

/// What a card holds, as mathematical values.
pub struct TaskCardView {
    pub creation_time: Seq<char>,
    pub creation_date: Seq<char>,
    pub completion_time: Seq<char>,
    pub completion_date: Seq<char>,
    pub hide_completion: bool,
    pub priority: Seq<char>,
    pub description: Seq<char>,
    pub completed: bool,
}

impl View for TaskCard {
    type V = TaskCardView;

    open spec fn view(&self) -> TaskCardView {
        TaskCardView {
            creation_time: self.creation_time@,
            creation_date: self.creation_date@,
            completion_time: self.completion_time@,
            completion_date: self.completion_date@,
            hide_completion: self.hide_completion,
            priority: self.priority@,
            description: self.description@,
            completed: self.completed,
        }
    }
}

/// The two lines shown for a point in time: its time of day and its date,
/// or the two given lines where it is not known.
pub open spec fn time_lines(
    at: Option<Timestamp>,
    unknown: Seq<char>,
) -> (Seq<char>, Seq<char>) {
    match at {
        Some(at) => (at.clock_text(), at.date_text()),
        None => (NOT_YET@, unknown),
    }
}

/// The card of a task.
pub open spec fn card_of(task: TodoTaskView) -> TaskCardView {
    let created = time_lines(timestamp_of(task.created_at), CREATION_UNKNOWN@);
    let completed = time_lines(timestamp_of(task.completed_at), COMPLETION_UNKNOWN@);
    TaskCardView {
        creation_time: created.0,
        creation_date: created.1,
        completion_time: completed.0,
        completion_date: completed.1,
        hide_completion: timestamp_of(task.completed_at) is None,
        priority: priority_text(task.priority),
        description: match task.description {
            Some(text) => text,
            None => NO_DESCRIPTION@,
        },
        completed: task.completed_at is Some,
    }
}

fn write_time_lines(at: &Option<Timestamp>, unknown: &str) -> (r: (String, String))
    ensures
        (r.0@, r.1@) == time_lines(*at, unknown@),
{
    match at {
        Some(at) => (at.clock(), at.date()),
        None => (String::from_str(NOT_YET), String::from_str(unknown)),
    }
}

/// The texts of the card of a task.
pub fn task(props: &TaskProperties) -> (r: TaskCard)
    ensures
        r@ == card_of(props.todo_task@),
{
    let task = &props.todo_task;
    let completed_at = task.completed_at();
    let created = write_time_lines(&task.created_at(), CREATION_UNKNOWN);
    let completed = write_time_lines(&completed_at, COMPLETION_UNKNOWN);
    TaskCard {
        creation_time: created.0,
        creation_date: created.1,
        completion_time: completed.0,
        completion_date: completed.1,
        hide_completion: completed_at.is_none(),
        priority: priority_label(task.priority),
        description: match &task.description {
            Some(text) => text.clone(),
            None => String::from_str(NO_DESCRIPTION),
        },
        completed: task.completed(),
    }
}

} // verus!
