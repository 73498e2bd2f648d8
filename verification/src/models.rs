//! Data model of the helpdesk: users with their roles, and support tickets.

pub mod ticket;
pub mod user;
