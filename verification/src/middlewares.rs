//! What stands between a request and the services.

pub mod is_authenticated;
