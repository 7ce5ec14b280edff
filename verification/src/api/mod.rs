//! The REST client: requests, classified responses, and the services built
//! on them.

pub mod api_client;
pub mod api_error_response;
pub mod auth;
pub mod tasks;
