//! Templates of the messages sent to the agent for review comments and commits.
pub mod service;
pub mod types;
