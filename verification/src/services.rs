//! Services behind the request handlers: the token codec and the password
//! hashing primitives.

pub mod auth_service;
