//! A task of the to-do list and its priority.

use crate::datetime::{datetime_from_str, utc_datetime_from_str, Timestamp};
use crate::json::{
    i32_member, json_string_literal, optional_text_member, read_i32_member,
    read_optional_text_member, read_text_member, string_literal, text_member, FromJson,
};
use crate::text::{clone_opt_text, decimal, i64_to_decimal, opt_text, trimmed};
use vstd::prelude::*;
use vstd::string::*;

verus! {

/// How urgent a task is. `A` ranks before `B`, and `B` before `C`.
#[derive(Clone, Copy, Debug, PartialEq, Eq, Structural)]
pub enum Priority {
    A,
    B,
    C,
}

impl Priority {
    /// The priority that a text names: a single letter, in either case.
    /// Every other text names no priority.
    pub open spec fn parsed(text: Seq<char>) -> Option<Priority> {
        if text == seq!['A'] || text == seq!['a'] {
            Some(Priority::A)
        } else if text == seq!['B'] || text == seq!['b'] {
            Some(Priority::B)
        } else if text == seq!['C'] || text == seq!['c'] {
            Some(Priority::C)
        } else {
            None
        }
    }

    /// The letter that names a priority.
    pub open spec fn name(self) -> Seq<char> {
        match self {
            Priority::A => seq!['A'],
            Priority::B => seq!['B'],
            Priority::C => seq!['C'],
        }
    }

    /// The same letter in lower case.
    pub open spec fn lower_name(self) -> Seq<char> {
        match self {
            Priority::A => seq!['a'],
            Priority::B => seq!['b'],
            Priority::C => seq!['c'],
        }
    }

    /// The place of a priority in the ranking, most urgent first.
    pub open spec fn rank(self) -> int {
        match self {
            Priority::A => 0,
            Priority::B => 1,
            Priority::C => 2,
        }
    }

    /// The priority that a text names exactly: the upper-case letter alone.
    pub open spec fn named(text: Seq<char>) -> Option<Priority> {
        if text == seq!['A'] {
            Some(Priority::A)
        } else if text == seq!['B'] {
            Some(Priority::B)
        } else if text == seq!['C'] {
            Some(Priority::C)
        } else {
            None
        }
    }

    /// Reads a priority from its exact name, as the server writes it.
    pub fn from_name(text: &str) -> (r: Option<Priority>)
        ensures
            r == Self::named(text@),
    {
        proof {
            reveal_strlit("A");
            reveal_strlit("B");
            reveal_strlit("C");
            assert("A"@ =~= seq!['A']);
            assert("B"@ =~= seq!['B']);
            assert("C"@ =~= seq!['C']);
        }
        if text.eq("A") {
            Some(Priority::A)
        } else if text.eq("B") {
            Some(Priority::B)
        } else if text.eq("C") {
            Some(Priority::C)
        } else {
            None
        }
    }

    /// Reads a priority from a text, leniently: an unknown text is no error,
    /// it stands for "no priority".
    pub fn parse(text: &str) -> (r: Option<Priority>)
        ensures
            r == Self::parsed(text@),
    {
        proof {
            reveal_strlit("A");
            reveal_strlit("a");
            reveal_strlit("B");
            reveal_strlit("b");
            reveal_strlit("C");
            reveal_strlit("c");
            assert("A"@ =~= seq!['A']);
            assert("a"@ =~= seq!['a']);
            assert("B"@ =~= seq!['B']);
            assert("b"@ =~= seq!['b']);
            assert("C"@ =~= seq!['C']);
            assert("c"@ =~= seq!['c']);
        }
        if text.eq("A") || text.eq("a") {
            Some(Priority::A)
        } else if text.eq("B") || text.eq("b") {
            Some(Priority::B)
        } else if text.eq("C") || text.eq("c") {
            Some(Priority::C)
        } else {
            None
        }
    }

    /// Reads a priority from a text; an unknown text is an error.
    pub fn from_str(text: &str) -> (r: Result<Priority, ()>)
        ensures
            match r {
                Ok(p) => Self::parsed(text@) == Some(p),
                Err(_) => Self::parsed(text@) is None,
            },
    {
        match Self::parse(text) {
            Some(p) => Ok(p),
            None => Err(()),
        }
    }

    /// The letter that names the priority.
    pub fn to_string(&self) -> (r: String)
        ensures
            r@ == self.name(),
    {
        proof {
            reveal_strlit("A");
            reveal_strlit("B");
            reveal_strlit("C");
            assert("A"@ =~= seq!['A']);
            assert("B"@ =~= seq!['B']);
            assert("C"@ =~= seq!['C']);
        }
        match self {
            Priority::A => String::from_str("A"),
            Priority::B => String::from_str("B"),
            Priority::C => String::from_str("C"),
        }
    }

    /// The place of the priority in the ranking, most urgent first.
    pub fn ranking(&self) -> (r: u8)
        ensures
            r == self.rank(),
    {
        match self {
            Priority::A => 0,
            Priority::B => 1,
            Priority::C => 2,
        }
    }
}

/// Reading a priority ignores the letter's case and nothing else: the name
/// of a priority reads back as that priority, in upper and in lower case,
/// and no other text reads as it.
pub proof fn lemma_priority_parse_exact(text: Seq<char>, p: Priority)
    ensures
        Priority::parsed(p.name()) == Some(p),
        Priority::parsed(p.lower_name()) == Some(p),
        Priority::parsed(text) == Some(p) <==> (text == p.name() || text == p.lower_name()),
{
    assert(seq!['A'][0] == 'A' && seq!['a'][0] == 'a');
    assert(seq!['B'][0] == 'B' && seq!['b'][0] == 'b');
    assert(seq!['C'][0] == 'C' && seq!['c'][0] == 'c');
    match p {
        Priority::A => {},
        Priority::B => {},
        Priority::C => {},
    }
}

/// The format in which the server writes its timestamps.
pub const DATE_FORMAT: &'static str = "%Y-%m-%d %H:%M:%S.%f";

/// A task of the to-do list.
///
/// A task is completed exactly when it carries a completion timestamp.
#[derive(Clone, Debug, PartialEq)]
pub struct TodoTask {
    pub id: i32,
    pub title: String,
    pub priority: Option<Priority>,
    pub description: Option<String>,
    pub created_at: Option<String>,
    pub completed_at: Option<String>,
    pub user_id: i32,
}

/// What a task holds, as mathematical values.
pub struct TodoTaskView {
    pub id: i32,
    pub title: Seq<char>,
    pub priority: Option<Priority>,
    pub description: Option<Seq<char>>,
    pub created_at: Option<Seq<char>>,
    pub completed_at: Option<Seq<char>>,
    pub user_id: i32,
}

impl View for TodoTask {
    type V = TodoTaskView;

    open spec fn view(&self) -> TodoTaskView {
        TodoTaskView {
            id: self.id,
            title: self.title@,
            priority: self.priority,
            description: opt_text(self.description),
            created_at: opt_text(self.created_at),
            completed_at: opt_text(self.completed_at),
            user_id: self.user_id,
        }
    }
}

impl TodoTaskView {
    /// The task that a new form starts from: no text, no priority, no
    /// timestamps, and zero for the numbers that the server assigns.
    pub open spec fn empty() -> TodoTaskView {
        TodoTaskView {
            id: 0,
            title: Seq::empty(),
            priority: None,
            description: None,
            created_at: None,
            completed_at: None,
            user_id: 0,
        }
    }

    /// Whether the task is completed.
    pub open spec fn completed(self) -> bool {
        self.completed_at is Some
    }
}

/// The point in time that an optional timestamp of the server stands for.
pub open spec fn timestamp_of(text: Option<Seq<char>>) -> Option<Timestamp> {
    match text {
        Some(t) => utc_datetime_from_str(trimmed(t), DATE_FORMAT@),
        None => None,
    }
}

/// Reads an optional timestamp of the server: the text is trimmed and read
/// under `DATE_FORMAT`. A missing or unreadable timestamp gives `None`.
pub fn read_timestamp(text: &Option<String>) -> (r: Option<Timestamp>)
    ensures
        r == timestamp_of(opt_text(*text)),
{
    match text {
        Some(t) => datetime_from_str(t.as_str().trim(), DATE_FORMAT),
        None => None,
    }
}

impl Default for TodoTask {
    /// A task with no text, no priority and no timestamps.
    fn default() -> (r: TodoTask)
        ensures
            r@ == TodoTaskView::empty(),
    {
        TodoTask {
            id: 0,
            title: String::new(),
            priority: None,
            description: None,
            created_at: None,
            completed_at: None,
            user_id: 0,
        }
    }
}

impl TodoTask {
    /// Whether the task is completed.
    pub fn completed(&self) -> (r: bool)
        ensures
            r == self@.completed(),
    {
        self.completed_at.is_some()
    }

    /// When the task was created, if the server told and the text is a
    /// timestamp.
    pub fn created_at(&self) -> (r: Option<Timestamp>)
        ensures
            r == timestamp_of(self@.created_at),
    {
        read_timestamp(&self.created_at)
    }

    /// When the task was completed, if it was and the text is a timestamp.
    pub fn completed_at(&self) -> (r: Option<Timestamp>)
        ensures
            r == timestamp_of(self@.completed_at),
    {
        read_timestamp(&self.completed_at)
    }

    /// A copy of the task.
    pub fn duplicate(&self) -> (r: TodoTask)
        ensures
            r@ == self@,
    {
        TodoTask {
            id: self.id,
            title: self.title.clone(),
            priority: self.priority,
            description: clone_opt_text(&self.description),
            created_at: clone_opt_text(&self.created_at),
            completed_at: clone_opt_text(&self.completed_at),
            user_id: self.user_id,
        }
    }
}

/// The priority member of a task: missing or `null` for no priority, else
/// the exact name of one. Any other member is a fault of the shape: `None`.
pub open spec fn priority_member(value: serde_json::Value) -> Option<Option<Priority>> {
    match optional_text_member(value, "priority"@) {
        Some(Some(name)) => match Priority::named(name) {
            Some(p) => Some(Some(p)),
            None => None,
        },
        Some(None) => Some(None),
        None => None,
    }
}

fn read_priority_member(value: &serde_json::Value) -> (r: Option<Option<Priority>>)
    ensures
        r == priority_member(*value),
{
    match read_optional_text_member(value, "priority") {
        Some(Some(name)) => match Priority::from_name(name.as_str()) {
            Some(p) => Some(Some(p)),
            None => None,
        },
        Some(None) => Some(None),
        None => None,
    }
}

/// The JSON text of an optional string: a string literal, or `null`.
pub open spec fn json_optional_text(text: Option<Seq<char>>) -> Seq<char> {
    match text {
        Some(t) => json_string_literal(t),
        None => "null"@,
    }
}

/// The JSON text of an optional priority: its name as a string literal, or
/// `null`.
pub open spec fn json_optional_priority(priority: Option<Priority>) -> Seq<char> {
    match priority {
        Some(p) => json_string_literal(p.name()),
        None => "null"@,
    }
}

fn write_optional_text(text: &Option<String>) -> (r: String)
    ensures
        r@ == json_optional_text(opt_text(*text)),
{
    match text {
        Some(t) => string_literal(t.as_str()),
        None => String::from_str("null"),
    }
}

fn write_optional_priority(priority: &Option<Priority>) -> (r: String)
    ensures
        r@ == json_optional_priority(*priority),
{
    match priority {
        Some(p) => {
            let name = p.to_string();
            string_literal(name.as_str())
        },
        None => String::from_str("null"),
    }
}

impl TodoTaskView {
    /// The JSON object that carries the task to the server. The creation
    /// timestamp is the server's to set and is not sent.
    pub open spec fn body(self) -> Seq<char> {
        "{\"id\":"@ + decimal(self.id as int) + ",\"title\":"@ + json_string_literal(self.title)
            + ",\"priority\":"@ + json_optional_priority(self.priority) + ",\"description\":"@
            + json_optional_text(self.description) + ",\"completedAt\":"@ + json_optional_text(
            self.completed_at,
        ) + ",\"userId\":"@ + decimal(self.user_id as int) + "}"@
    }
}

impl TodoTask {
    /// Writes the task as the JSON object that the server expects.
    pub fn to_json(&self) -> (r: String)
        ensures
            r@ == self@.body(),
    {
        let mut r = String::from_str("{\"id\":");
        r.append(i64_to_decimal(self.id as i64).as_str());
        r.append(",\"title\":");
        r.append(string_literal(self.title.as_str()).as_str());
        r.append(",\"priority\":");
        r.append(write_optional_priority(&self.priority).as_str());
        r.append(",\"description\":");
        r.append(write_optional_text(&self.description).as_str());
        r.append(",\"completedAt\":");
        r.append(write_optional_text(&self.completed_at).as_str());
        r.append(",\"userId\":");
        r.append(i64_to_decimal(self.user_id as i64).as_str());
        r.append("}");
        r
    }
}

impl FromJson for TodoTask {
    /// A task is an object with a whole number `id`, a string `title`, a
    /// whole number `userId`, and optionally a `priority`, a `description`,
    /// a `createdAt` and a `completedAt`.
    open spec fn decoded(value: serde_json::Value) -> Option<TodoTaskView> {
        match (
            i32_member(value, "id"@),
            text_member(value, "title"@),
            priority_member(value),
            optional_text_member(value, "description"@),
            optional_text_member(value, "createdAt"@),
            optional_text_member(value, "completedAt"@),
            i32_member(value, "userId"@),
        ) {
            (
                Some(id),
                Some(title),
                Some(priority),
                Some(description),
                Some(created_at),
                Some(completed_at),
                Some(user_id),
            ) => Some(
                TodoTaskView {
                    id,
                    title,
                    priority,
                    description,
                    created_at,
                    completed_at,
                    user_id,
                },
            ),
            _ => None,
        }
    }

    fn from_json(value: &serde_json::Value) -> (r: Option<TodoTask>) {
        let id = read_i32_member(value, "id");
        let title = read_text_member(value, "title");
        let priority = read_priority_member(value);
        let description = read_optional_text_member(value, "description");
        let created_at = read_optional_text_member(value, "createdAt");
        let completed_at = read_optional_text_member(value, "completedAt");
        let user_id = read_i32_member(value, "userId");
        match (id, title, priority, description, created_at, completed_at, user_id) {
            (
                Some(id),
                Some(title),
                Some(priority),
                Some(description),
                Some(created_at),
                Some(completed_at),
                Some(user_id),
            ) => Some(
                TodoTask { id, title, priority, description, created_at, completed_at, user_id },
            ),
            _ => None,
        }
    }
}

/// What a list of tasks holds, as mathematical values.
pub open spec fn task_views(tasks: Seq<TodoTask>) -> Seq<TodoTaskView> {
    tasks.map_values(|task: TodoTask| task@)
}

} // verus!
