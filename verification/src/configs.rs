//! Settings of the service.

pub mod auth;
