//! The larger parts of a page.

pub mod navbar;
pub mod tasks;
