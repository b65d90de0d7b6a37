//! The agent: conversation types, prompts, tools, compaction and usage accounting.
pub mod anthropic;
pub mod compaction;
pub mod error;
pub mod gemini;
pub mod headless;
pub mod memory;
pub mod prompts;
pub mod providers;
pub mod state;
pub mod tools;
pub mod types;
pub mod usage;
