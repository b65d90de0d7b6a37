//! The tools an agent can call: their names, inputs, definitions, and the
//! decisions around running them.
pub mod calls;
pub mod context;
pub mod definitions;
pub mod files;
pub mod notebook;
pub mod search;
pub mod session;
pub mod shell;
pub mod subagent;
pub mod types;
