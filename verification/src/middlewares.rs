//! What a request passes before it is handled.
pub mod auth;
