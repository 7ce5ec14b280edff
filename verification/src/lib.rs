//! Client-side logic of a to-do list application.
//!
//! The crate decides; it performs no I/O. It builds the requests of the
//! REST client and says what each answer means ([`api`]), keeps the session
//! and the cached list of tasks with its validity flag ([`store`]), says
//! what happens when a call fails ([`utils`]), and works out what each page
//! shows and does ([`components`]). The themes and the style sheets built
//! from them are in [`app_context`] and [`styles`].
//!
//! Three outside crates do what is theirs to do: `serde_json` reads and
//! writes JSON ([`json`]), `chrono` reads timestamps ([`datetime`]), and
//! `uuid` draws the tokens of the error banners.

pub mod api;
pub mod app;
pub mod app_context;
pub mod components;
pub mod datetime;
pub mod json;
pub mod router;
pub mod store;
pub mod styles;
pub mod text;
pub mod utils;
