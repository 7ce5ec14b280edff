//! The smallest parts of a page.

pub mod checkbox;
pub mod dropdown;
pub mod priority;
pub mod route_link;
