//! Build-status ingestion and badge queries for CDS workflows.
pub mod badge;
pub mod configuration;
pub mod error;
pub mod kafka;
pub mod middlewares;
pub mod models;
pub mod run;
pub mod sdk;
pub mod service;
pub mod status;
pub mod text;
pub mod web;
