//! Bindings for the Trackdesk postback.

pub mod api_client;
pub mod models;
