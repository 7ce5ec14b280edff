//! The pages.

pub mod auth_data;
pub mod create_account;
pub mod error_data;
pub mod home;
pub mod login;
pub mod new_task;
pub mod task_details;
