//! The parts of a page that are made of smaller parts.

pub mod task;
pub mod theme_selector;
