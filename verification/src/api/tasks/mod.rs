//! Tasks and the operations on them.

pub mod task;
pub mod tasks_response;
pub mod tasks_service;
pub mod todo_task;
