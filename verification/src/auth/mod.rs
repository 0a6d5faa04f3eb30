//! Signing in to the server, and staying signed in.

pub mod device_flow;
pub mod dirty;
pub mod login;
pub mod tokens;
