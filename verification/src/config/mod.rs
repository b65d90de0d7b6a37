//! Application and project configuration.
pub mod service;
pub mod types;
