//! Authentication and authorization core of a helpdesk ticketing service.
//!
//! The verified library covers the pieces with a real contract: the token
//! codec (signed, time-bounded credentials), the login flow, the request
//! authenticator that gates protected operations, and the role check for
//! administrator-only operations.  HTTP routing, template rendering and
//! database access are kept outside, handing plain values in and out.

pub mod auth;
pub mod controllers;
pub mod models;
pub mod services;
pub mod text;
