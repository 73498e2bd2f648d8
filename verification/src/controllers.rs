//! The decision logic behind each request handler, on plain values: what a
//! handler computes once the surrounding layer has read the request and
//! before it writes the response or touches storage.

pub mod admin_controller;
pub mod auth_controller;
pub mod ticket_controller;
pub mod user_controller;
