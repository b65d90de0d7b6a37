//! The sub-agent loop: a model turn, the tool calls it makes, their results, and
//! what the loop decides between turns.
use vstd::prelude::*;

use super::error::{error_text, AgentError};
use super::tools::types::{tool_named, ToolName};
use super::providers::iteration_limit_message;
use super::usage::TokenUsage;
use crate::text::{chars_of, copy_string, decimal_exec, push_all, push_str, string_of};

verus! {

/// A tool call of a sub-agent turn; its input is JSON text.
#[derive(Debug, Clone)]
pub struct ToolCall {
    pub id: String,
    pub name: String,
    pub input: String,
}

/// The result of a sub-agent's tool call.
#[derive(Debug, Clone)]
pub struct ToolResult {
    pub id: String,
    pub name: String,
    pub output: String,
    pub is_error: bool,
}

/// One model turn of a sub-agent: its text, its tool calls, the tokens it used and
/// why it stopped.
#[derive(Debug)]
pub struct HeadlessResponse {
    pub text: String,
    pub tool_calls: Vec<ToolCall>,
    pub usage: TokenUsage,
    pub stop_reason: Option<String>,
}

/// The value of an optional text.
pub open spec fn reason_view(o: Option<String>) -> Option<Seq<char>> {
    match o {
        Some(s) => Some(s@),
        None => None,
    }
}

/// A copy of an optional text.
pub fn copy_reason(o: &Option<String>) -> (r: Option<String>)
    ensures
        reason_view(r) == reason_view(*o),
{
    match o {
        Some(s) => Some(copy_string(s.as_str())),
        None => None,
    }
}

impl HeadlessResponse {
    /// Whether the turn calls a tool.
    pub fn has_tool_calls(&self) -> (r: bool)
        ensures
            r == (self.tool_calls@.len() > 0),
    {
        self.tool_calls.len() > 0
    }
}

/// What the loop does after a model turn.
#[derive(Debug, Clone, Copy, PartialEq, Eq, Structural)]
pub enum HeadlessStep {
    /// The turn called no tool: the run ends, having made this many tool rounds.
    Finish { tool_calls_made: u32 },
    /// Run the turn's tool calls; this is the round's number.
    RunTools { iteration: u32 },
}

/// Decides the step after a turn, when `iteration` tool rounds have run: a turn
/// without tool calls ends the run; one more round than `max_iterations` is an
/// error.
pub fn next_step(iteration: u32, max_iterations: u32, has_tool_calls: bool) -> (r: Result<
    HeadlessStep,
    AgentError,
>)
    ensures
        !has_tool_calls ==> r == Ok::<HeadlessStep, AgentError>(
            HeadlessStep::Finish { tool_calls_made: iteration },
        ),
        has_tool_calls && iteration < max_iterations ==> r == Ok::<HeadlessStep, AgentError>(
            HeadlessStep::RunTools { iteration: (iteration + 1) as u32 },
        ),
        has_tool_calls && iteration >= max_iterations ==> (r matches Err(
            AgentError::ToolExecutionError(m),
        ) && m@ == iteration_limit_message(max_iterations)),
{
    if !has_tool_calls {
        return Ok(HeadlessStep::Finish { tool_calls_made: iteration });
    }
    if iteration >= max_iterations {
        let mut m = chars_of("Exceeded maximum tool iterations (");
        let d = decimal_exec(max_iterations as u64);
        push_all(&mut m, d.as_slice());
        push_str(&mut m, ")");
        return Err(AgentError::ToolExecutionError(string_of(m.as_slice())));
    }
    Ok(HeadlessStep::RunTools { iteration: iteration + 1 })
}

/// Whether a turn's usage is counted: only when it reports some tokens.
pub fn counts_usage(usage: TokenUsage) -> (r: bool)
    ensures
        r == (usage.input_tokens > 0 || usage.output_tokens > 0),
{
    usage.input_tokens > 0 || usage.output_tokens > 0
}


/// What a sub-agent run gives back: the text of all its turns, how many tool
/// rounds it made, and why its last turn stopped.
#[derive(Debug, Clone)]
pub struct HeadlessResult {
    pub text: String,
    pub tool_calls_made: u32,
    pub stop_reason: Option<String>,
}

/// A run must stop before a turn once it has been cancelled.
pub fn check_cancelled(cancelled: bool) -> (r: Result<(), AgentError>)
    ensures
        cancelled ==> r matches Err(AgentError::Cancelled),
        !cancelled ==> r is Ok,
{
    if cancelled {
        Err(AgentError::Cancelled)
    } else {
        Ok(())
    }
}

/// A sub-agent run between two turns: the text gathered so far, the tool rounds
/// made and the most that may be made.
#[derive(Debug)]
pub struct HeadlessRun {
    text: Vec<char>,
    iteration: u32,
    max_iterations: u32,
}

impl HeadlessRun {
    /// The text of the turns so far.
    pub closed spec fn text_so_far(&self) -> Seq<char> {
        self.text@
    }

    /// The tool rounds made so far.
    pub closed spec fn rounds(&self) -> u32 {
        self.iteration
    }

    /// The most tool rounds the run may make.
    pub closed spec fn limit(&self) -> u32 {
        self.max_iterations
    }

    /// A run that has made no turn yet.
    pub fn new(max_iterations: u32) -> (r: Self)
        ensures
            r.text_so_far() == Seq::<char>::empty(),
            r.rounds() == 0,
            r.limit() == max_iterations,
    {
        HeadlessRun { text: Vec::new(), iteration: 0, max_iterations }
    }

    /// Takes in a model turn: its text is added to the run's; a turn without tool
    /// calls ends the run with all the text and the turn's stop reason; otherwise
    /// one more tool round is made, or the run fails when that would exceed the
    /// limit.
    pub fn on_turn(&mut self, text: &str, has_tool_calls: bool, stop_reason: Option<String>) -> (r: Result<
        Option<HeadlessResult>,
        AgentError,
    >)
        ensures
            final(self).text_so_far() == old(self).text_so_far() + text@,
            final(self).limit() == old(self).limit(),
            !has_tool_calls ==> final(self).rounds() == old(self).rounds() && (r matches Ok(
                Some(res),
            ) && res.text@ == final(self).text_so_far() && res.stop_reason == stop_reason
                && res.tool_calls_made == old(
                self,
            ).rounds()),
            has_tool_calls && old(self).rounds() < old(self).limit() ==> (r matches Ok(None)
                && final(self).rounds() == old(self).rounds() + 1),
            has_tool_calls && old(self).rounds() >= old(self).limit() ==> (r matches Err(
                AgentError::ToolExecutionError(m),
            ) && m@ == iteration_limit_message(old(self).limit())),
    {
        push_str(&mut self.text, text);
        match next_step(self.iteration, self.max_iterations, has_tool_calls) {
            Ok(HeadlessStep::Finish { tool_calls_made }) => Ok(
                Some(HeadlessResult { text: string_of(self.text.as_slice()), tool_calls_made, stop_reason }),
            ),
            Ok(HeadlessStep::RunTools { iteration }) => {
                self.iteration = iteration;
                Ok(None)
            },
            Err(e) => Err(e),
        }
    }
}

/// The tool that a call names; a name that is no tool is an error.
pub fn tool_for_call(call: &ToolCall) -> (r: Result<ToolName, AgentError>)
    ensures
        match tool_named(call.name@) {
            Some(t) => r == Ok::<ToolName, AgentError>(t),
            None => r matches Err(AgentError::UnknownTool(n)) && n@ == call.name@,
        },
{
    match ToolName::parse(call.name.as_str()) {
        Some(t) => Ok(t),
        None => Err(AgentError::UnknownTool(copy_string(call.name.as_str()))),
    }
}

/// The result of a call from what the tool gave: its output, or the message of
/// its error, marked as an error.
pub fn tool_result(call: &ToolCall, outcome: Result<String, AgentError>) -> (r: ToolResult)
    ensures
        r.id@ == call.id@,
        r.name@ == call.name@,
        match outcome {
            Ok(o) => r.output@ == o@ && !r.is_error,
            Err(e) => r.output@ == error_text(e) && r.is_error,
        },
{
    let (output, is_error) = match outcome {
        Ok(o) => (o, false),
        Err(e) => (e.message(), true),
    };
    ToolResult {
        id: copy_string(call.id.as_str()),
        name: copy_string(call.name.as_str()),
        output,
        is_error,
    }
}

} // verus!
