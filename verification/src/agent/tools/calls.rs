//! The decisions around running the tool calls of a response: whether a call may
//! run, what its result says, how a submitted plan's approval is answered, and
//! what the todo tools report.
use vstd::prelude::*;

use super::types::{tool_named, tool_text, TodoItem, ToolName};
use crate::agent::error::{error_text, AgentError};
use crate::text::{chars_of, decimal, decimal_exec, join, join_exec, owned, push_all, push_str, string_of, vecs_view};

verus! {

broadcast use vstd::string::group_string_axioms;

/// How the user answered a submitted plan.
#[derive(Debug, Clone)]
pub enum PlanApproval {
    Approved,
    Rejected(Option<String>),
}

/// Checks that a tool call may run: not after cancellation, and only for a known
/// tool.
pub fn start_tool_call(name: &str, cancelled: bool) -> (r: Result<ToolName, AgentError>)
    ensures
        cancelled ==> (r matches Err(e) && e is Cancelled),
        !cancelled ==> match tool_named(name@) {
            Some(t) => r == Ok::<ToolName, AgentError>(t),
            None => r matches Err(e) && (e matches AgentError::UnknownTool(n) && n@ == name@),
        },
{
    if cancelled {
        return Err(AgentError::Cancelled);
    }
    match ToolName::parse(name) {
        Some(t) => Ok(t),
        None => Err(AgentError::UnknownTool(owned(name))),
    }
}

/// The output of a call as the model sees it: the tool's output, or the error's
/// message marked as an error.
pub fn tool_result_text(outcome: Result<String, AgentError>) -> (r: (String, bool))
    ensures
        match outcome {
            Ok(s) => r.0@ == s@ && !r.1,
            Err(e) => r.0@ == error_text(e) && r.1,
        },
{
    match outcome {
        Ok(s) => (s, false),
        Err(e) => (e.message(), true),
    }
}

/// The output of a call that was cancelled while it ran.
pub fn cancelled_result() -> (r: (String, bool))
    ensures
        r.0@ == "Cancelled by user"@,
        r.1,
{
    (owned("Cancelled by user"), true)
}

/// A successful plan submission waits for the user's answer.
pub fn awaits_plan_approval(tool: ToolName, is_error: bool) -> (r: bool)
    ensures
        r == (tool == ToolName::SubmitPlan && !is_error),
{
    tool == ToolName::SubmitPlan && !is_error
}

/// The result of a plan submission once answered: approval lets the work proceed,
/// a rejection (with its reason, if any) is an error; without an answer the tool's
/// own result stands.
pub open spec fn plan_result(
    approval: Option<PlanApproval>,
    output: Seq<char>,
    is_error: bool,
) -> (Seq<char>, bool) {
    match approval {
        Some(PlanApproval::Approved) => (
            "Plan approved by user. Proceed with implementation."@,
            false,
        ),
        Some(PlanApproval::Rejected(Some(reason))) => (
            "Plan rejected by user: "@ + reason@,
            true,
        ),
        Some(PlanApproval::Rejected(None)) => ("Plan rejected by user."@, true),
        None => (output, is_error),
    }
}

/// Answers a plan submission.
pub fn plan_outcome(approval: Option<PlanApproval>, output: String, is_error: bool) -> (r: (
    String,
    bool,
))
    ensures
        (r.0@, r.1) == plan_result(approval, output@, is_error),
{
    match approval {
        Some(PlanApproval::Approved) => (
            owned("Plan approved by user. Proceed with implementation."),
            false,
        ),
        Some(PlanApproval::Rejected(Some(reason))) => {
            let mut m = chars_of("Plan rejected by user: ");
            push_str(&mut m, reason.as_str());
            (string_of(m.as_slice()), true)
        },
        Some(PlanApproval::Rejected(None)) => (owned("Plan rejected by user."), true),
        None => (output, is_error),
    }
}

/// The answer when the approval channel closed before the user answered.
pub fn channel_closed() -> (r: PlanApproval)
    ensures
        r matches PlanApproval::Rejected(Some(m)) && m@ == "Channel closed"@,
{
    PlanApproval::Rejected(Some(owned("Channel closed")))
}

/// How a todo is listed: `[status] content (priority)`.
pub open spec fn todo_line(t: TodoItem) -> Seq<char> {
    "["@ + t.status@ + "] "@ + t.content@ + " ("@ + t.priority@ + ")"@
}

/// What reading the todo list gives.
pub open spec fn todo_listing(ts: Seq<TodoItem>) -> Seq<char> {
    if ts.len() == 0 {
        "No todos"@
    } else {
        join(ts.map_values(|t: TodoItem| todo_line(t)), "\n"@)
    }
}

/// Lists the todos, one per line, or says there are none.
pub fn format_todos(todos: &Vec<TodoItem>) -> (r: String)
    ensures
        r@ == todo_listing(todos@),
{
    if todos.len() == 0 {
        return owned("No todos");
    }
    let ghost want = todos@.map_values(|t: TodoItem| todo_line(t));
    let mut parts: Vec<Vec<char>> = Vec::new();
    let mut i: usize = 0;
    while i < todos.len()
        invariant
            i <= todos@.len(),
            want == todos@.map_values(|t: TodoItem| todo_line(t)),
            vecs_view(parts@) == want.take(i as int),
        decreases todos@.len() - i,
    {
        let t = &todos[i];
        let mut l = chars_of("[");
        push_str(&mut l, t.status.as_str());
        push_str(&mut l, "] ");
        push_str(&mut l, t.content.as_str());
        push_str(&mut l, " (");
        push_str(&mut l, t.priority.as_str());
        push_str(&mut l, ")");
        let ghost before = parts@;
        parts.push(l);
        assert(vecs_view(parts@) =~= vecs_view(before).push(want[i as int]));
        assert(want.take(i + 1) =~= want.take(i as int).push(want[i as int]));
        i = i + 1;
    }
    assert(want.take(todos@.len() as int) =~= want);
    let sep = chars_of("\n");
    let r = join_exec(&parts, sep.as_slice());
    string_of(r.as_slice())
}

/// The report of a todo list update.
pub fn todos_updated_message(count: usize) -> (r: String)
    ensures
        r@ == "Updated "@ + decimal(count as nat) + " todos"@,
{
    let mut m = chars_of("Updated ");
    let d = decimal_exec(count as u64);
    push_all(&mut m, d.as_slice());
    push_str(&mut m, " todos");
    string_of(m.as_slice())
}

/// The error for a tool that the orchestration layer runs rather than the executor.
pub fn orchestrated_tool_error(tool: ToolName) -> (r: AgentError)
    ensures
        r matches AgentError::ToolExecutionError(m) && m@ == "Tool '"@ + tool_text(tool)
            + "' is handled by the orchestration layer"@,
{
    let mut m = chars_of("Tool '");
    push_str(&mut m, tool.as_str());
    push_str(&mut m, "' is handled by the orchestration layer");
    AgentError::ToolExecutionError(string_of(m.as_slice()))
}

} // verus!
