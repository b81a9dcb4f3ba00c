//! The data and decisions behind the web front-end: server configuration,
//! connection status, call metadata and the API response shapes. The HTTP
//! plumbing itself lives outside.

pub mod config;
pub mod handlers;
pub mod manager;
pub mod state;
