//! Server-side logic: settings, HTTP error mapping and route decisions.

pub mod state;
pub mod http_error;
pub mod workspace;
pub mod provider;
pub mod event;
pub mod session_routes;
pub mod project;
