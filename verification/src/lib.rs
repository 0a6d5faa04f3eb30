//! Rich Presence for a self-hosted Lumastra server.

pub mod api;
pub mod auth;
pub mod config;
pub mod files;
pub mod mapper;
pub mod media;
pub mod poller;
pub mod presence;
pub mod text;
pub mod urls;
