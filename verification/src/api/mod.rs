//! Talking to the Lumastra server.

pub mod client;
pub mod model;
