//! Signing in and creating an account.

pub mod auth;
pub mod auth_response;
pub mod auth_service;
