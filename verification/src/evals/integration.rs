//! Running a case with the agent: what is recorded of each tool call, the settings
//! of a run, and the error when a run takes too long.
use vstd::prelude::*;

use super::types::ToolUsage;
use crate::agent::error::{error_text, AgentError};
use crate::agent::tools::definitions::{definitions_view, get_tool_definitions, tool_definitions};
use crate::agent::tools::types::{tool_text, ToolName};
use crate::agent::types::ToolDefinition;
use crate::text::{chars_of, copy_string, decimal, decimal_exec, owned, push_all, push_str, string_of};

verus! {

broadcast use vstd::string::group_string_axioms;

/// What is recorded of a tool call: the tool's name, its input, and its output, or
/// the text of its error.
pub fn record_usage(tool: ToolName, input: String, result: &Result<String, AgentError>) -> (r:
    ToolUsage)
    ensures
        r.name@ == tool_text(tool),
        r.input@ == input@,
        match result {
            Ok(o) => r.output@ == o@ && !r.is_error,
            Err(e) => r.output@ == error_text(*e) && r.is_error,
        },
{
    let (output, is_error) = match result {
        Ok(o) => (copy_string(o.as_str()), false),
        Err(e) => (e.message(), true),
    };
    ToolUsage { name: owned(tool.as_str()), input, output, is_error }
}

/// The settings of an eval run.
#[derive(Debug)]
pub struct EvalRunConfig {
    pub system_prompt: Option<String>,
    pub tools: Vec<ToolDefinition>,
    pub max_iterations: u32,
}

impl Default for EvalRunConfig {
    /// No system prompt, every tool, and at most 20 tool rounds.
    fn default() -> (r: Self)
        ensures
            r.system_prompt is None,
            definitions_view(r.tools@) == tool_definitions(),
            r.max_iterations == 20,
    {
        EvalRunConfig { system_prompt: None, tools: get_tool_definitions(), max_iterations: 20 }
    }
}

/// The error of a run that took longer than its time limit.
pub fn eval_timeout_error(timeout_ms: u64) -> (r: AgentError)
    ensures
        r matches AgentError::ToolExecutionError(m) && m@ == "Eval timed out after "@ + decimal(
            timeout_ms as nat,
        ) + "ms"@,
{
    let mut m = chars_of("Eval timed out after ");
    push_all(&mut m, decimal_exec(timeout_ms).as_slice());
    push_str(&mut m, "ms");
    AgentError::ToolExecutionError(string_of(m.as_slice()))
}

} // verus!
