//! The client side of the CDS API: the requests it sends, the session it
//! keeps, and the failures it reports.
pub mod auth;
pub mod client;
pub mod error;
pub mod models;
pub mod service;
