//! Git integration: diff parsing, status parsing, WSL path handling, syntax
//! highlighting and the decisions of the git service.
pub mod diff_parser;
pub mod highlighter;
pub mod service;
pub mod types;
pub mod wsl;
pub mod diff_view;
