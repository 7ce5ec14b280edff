//! What the pages and their parts decide: which text to show, which request
//! to send, and how the stores change when an answer arrives.

pub mod atoms;
pub mod molecules;
pub mod organisms;
pub mod pages;
