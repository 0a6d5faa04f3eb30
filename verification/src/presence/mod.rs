//! Keeping the Discord profile up to date.

pub mod activity;
pub mod client;
