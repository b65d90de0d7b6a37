//! Errors of the agent.
use vstd::prelude::*;

use crate::text::{chars_of, push_str, string_of};

verus! {

broadcast use vstd::string::group_string_axioms;

/// What can go wrong while running the agent.
#[derive(Debug, Clone)]
pub enum AgentError {
    /// The environment variable that should hold the API key is not set.
    MissingApiKey(String),
    /// The HTTP request failed (the text of the client's error).
    Http(String),
    /// The provider answered with an error.
    ApiError(String),
    /// The configuration could not be used.
    ConfigError(String),
    /// No adapter exists for the configured provider.
    UnsupportedProvider(String),
    /// A tool failed.
    ToolExecutionError(String),
    /// A tool ran out of time.
    ToolTimeout,
    /// The input of a tool call was not what the tool takes.
    InvalidToolInput(String),
    /// The model called a tool that does not exist.
    UnknownTool(String),
    /// A file operation failed (the text of the I/O error).
    Io(String),
    /// The user cancelled the run.
    Cancelled,
}

/// The message of an error.
pub open spec fn error_text(e: AgentError) -> Seq<char> {
    match e {
        AgentError::MissingApiKey(v) => "Missing API key: environment variable '"@ + v@
            + "' not set"@,
        AgentError::Http(m) => "HTTP error: "@ + m@,
        AgentError::ApiError(m) => "API error: "@ + m@,
        AgentError::ConfigError(m) => "Config error: "@ + m@,
        AgentError::UnsupportedProvider(p) => "Unsupported provider: '"@ + p@
            + "'. Supported providers: anthropic"@,
        AgentError::ToolExecutionError(m) => "Tool execution error: "@ + m@,
        AgentError::ToolTimeout => "Tool execution timed out"@,
        AgentError::InvalidToolInput(m) => "Invalid tool input: "@ + m@,
        AgentError::UnknownTool(t) => "Unknown tool: "@ + t@,
        AgentError::Io(m) => "IO error: "@ + m@,
        AgentError::Cancelled => "Operation cancelled"@,
    }
}

impl AgentError {
    /// The message of the error, as it is shown to the user.
    pub fn message(&self) -> (r: String)
        ensures
            r@ == error_text(*self),
    {
        let mut out: Vec<char>;
        match self {
            AgentError::MissingApiKey(v) => {
                out = chars_of("Missing API key: environment variable '");
                push_str(&mut out, v.as_str());
                push_str(&mut out, "' not set");
            },
            AgentError::Http(m) => {
                out = chars_of("HTTP error: ");
                push_str(&mut out, m.as_str());
            },
            AgentError::ApiError(m) => {
                out = chars_of("API error: ");
                push_str(&mut out, m.as_str());
            },
            AgentError::ConfigError(m) => {
                out = chars_of("Config error: ");
                push_str(&mut out, m.as_str());
            },
            AgentError::UnsupportedProvider(p) => {
                out = chars_of("Unsupported provider: '");
                push_str(&mut out, p.as_str());
                push_str(&mut out, "'. Supported providers: anthropic");
            },
            AgentError::ToolExecutionError(m) => {
                out = chars_of("Tool execution error: ");
                push_str(&mut out, m.as_str());
            },
            AgentError::ToolTimeout => {
                out = chars_of("Tool execution timed out");
            },
            AgentError::InvalidToolInput(m) => {
                out = chars_of("Invalid tool input: ");
                push_str(&mut out, m.as_str());
            },
            AgentError::UnknownTool(t) => {
                out = chars_of("Unknown tool: ");
                push_str(&mut out, t.as_str());
            },
            AgentError::Io(m) => {
                out = chars_of("IO error: ");
                push_str(&mut out, m.as_str());
            },
            AgentError::Cancelled => {
                out = chars_of("Operation cancelled");
            },
        }
        string_of(out.as_slice())
    }
}

} // verus!
