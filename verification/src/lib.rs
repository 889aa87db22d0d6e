//! Typed client-side logic for the TradeLocker brand REST API, its realtime
//! brand socket feed and the Trackdesk postback.
//!
//! Everything here is pure: requests are planned, responses are classified and
//! the socket session is tracked as plain values. Sending bytes over the wire
//! is left to the caller.

pub mod brand;
pub mod brand_socket;
pub mod json;
pub mod models;
pub mod text;
pub mod trackdesk;
