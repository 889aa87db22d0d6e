//! The realtime brand socket feed.

pub mod api_client;
pub mod callback;
pub mod event_handler;
pub mod models;
