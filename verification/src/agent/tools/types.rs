//! Tool names and the inputs that each tool takes.
use vstd::prelude::*;

use crate::text::str_eq;

verus! {

broadcast use vstd::string::group_string_axioms;

/// The tools an agent can call.
#[derive(Debug, Clone, Copy, PartialEq, Eq, Structural)]
pub enum ToolName {
    // File & shell tools
    Bash,
    ReadFile,
    WriteFile,
    EditFile,
    MultiEdit,
    ListDirectory,
    Glob,
    Grep,
    // Notebook tools
    NotebookRead,
    NotebookEdit,
    // Web tools
    WebFetch,
    SearchWeb,
    // Task management tools
    TodoRead,
    TodoWrite,
    DispatchAgent,
    SubmitPlan,
}

/// The wire name of a tool.
pub open spec fn tool_text(t: ToolName) -> Seq<char> {
    match t {
        ToolName::Bash => "bash"@,
        ToolName::ReadFile => "read_file"@,
        ToolName::WriteFile => "write_file"@,
        ToolName::EditFile => "edit_file"@,
        ToolName::MultiEdit => "multi_edit"@,
        ToolName::ListDirectory => "list_directory"@,
        ToolName::Glob => "glob"@,
        ToolName::Grep => "grep"@,
        ToolName::NotebookRead => "notebook_read"@,
        ToolName::NotebookEdit => "notebook_edit"@,
        ToolName::WebFetch => "web_fetch"@,
        ToolName::SearchWeb => "search_web"@,
        ToolName::TodoRead => "todo_read"@,
        ToolName::TodoWrite => "todo_write"@,
        ToolName::DispatchAgent => "dispatch_agent"@,
        ToolName::SubmitPlan => "submit_plan"@,
    }
}

/// The tool whose wire name is `s`, if any.
pub open spec fn tool_named(s: Seq<char>) -> Option<ToolName> {
    if exists|t: ToolName| #[trigger] tool_text(t) == s {
        Some(choose|t: ToolName| #[trigger] tool_text(t) == s)
    } else {
        None
    }
}

/// Two tools have the same wire name only if they are the same tool.
pub proof fn lemma_tool_text_injective(a: ToolName, b: ToolName)
    ensures
        tool_text(a) == tool_text(b) ==> a == b,
{
    reveal_strlit("bash");
    reveal_strlit("read_file");
    reveal_strlit("write_file");
    reveal_strlit("edit_file");
    reveal_strlit("multi_edit");
    reveal_strlit("list_directory");
    reveal_strlit("glob");
    reveal_strlit("grep");
    reveal_strlit("notebook_read");
    reveal_strlit("notebook_edit");
    reveal_strlit("web_fetch");
    reveal_strlit("search_web");
    reveal_strlit("todo_read");
    reveal_strlit("todo_write");
    reveal_strlit("dispatch_agent");
    reveal_strlit("submit_plan");
    if tool_text(a) == tool_text(b) && a != b {
        let x = tool_text(a);
        let y = tool_text(b);
        assert(x.len() == y.len());
        assert(x[0] != y[0] || x[1] != y[1] || x[2] != y[2] || x[5] != y[5] || x[9] != y[9]);
    }
}

/// Reading a tool's wire name gives the tool back.
pub proof fn law_tool_name_roundtrip(t: ToolName)
    ensures
        tool_named(tool_text(t)) == Some(t),
{
    let c = choose|u: ToolName| #[trigger] tool_text(u) == tool_text(t);
    lemma_tool_text_injective(c, t);
}

/// A name that reads as a tool is that tool's wire name.
pub proof fn law_tool_name_parse_exact(s: Seq<char>)
    ensures
        tool_named(s) matches Some(t) ==> tool_text(t) == s,
{
}

impl ToolName {
    /// The tool whose wire name is `s`.
    pub fn parse(s: &str) -> (r: Option<Self>)
        ensures
            r == tool_named(s@),
    {
        let r = if str_eq(s, "bash") {
            Some(ToolName::Bash)
        } else if str_eq(s, "read_file") {
            Some(ToolName::ReadFile)
        } else if str_eq(s, "write_file") {
            Some(ToolName::WriteFile)
        } else if str_eq(s, "edit_file") {
            Some(ToolName::EditFile)
        } else if str_eq(s, "multi_edit") {
            Some(ToolName::MultiEdit)
        } else if str_eq(s, "list_directory") {
            Some(ToolName::ListDirectory)
        } else if str_eq(s, "glob") {
            Some(ToolName::Glob)
        } else if str_eq(s, "grep") {
            Some(ToolName::Grep)
        } else if str_eq(s, "notebook_read") {
            Some(ToolName::NotebookRead)
        } else if str_eq(s, "notebook_edit") {
            Some(ToolName::NotebookEdit)
        } else if str_eq(s, "web_fetch") {
            Some(ToolName::WebFetch)
        } else if str_eq(s, "search_web") {
            Some(ToolName::SearchWeb)
        } else if str_eq(s, "todo_read") {
            Some(ToolName::TodoRead)
        } else if str_eq(s, "todo_write") {
            Some(ToolName::TodoWrite)
        } else if str_eq(s, "dispatch_agent") {
            Some(ToolName::DispatchAgent)
        } else if str_eq(s, "submit_plan") {
            Some(ToolName::SubmitPlan)
        } else {
            None
        };
        proof {
            match r {
                Some(t) => {
                    assert(tool_text(t) == s@);
                    law_tool_name_roundtrip(t);
                },
                None => {
                    assert forall|t: ToolName| #[trigger] tool_text(t) != s@ by {
                        match t {
                            ToolName::Bash => {},
                            _ => {},
                        }
                    }
                },
            }
        }
        r
    }

    /// The wire name of the tool.
    pub fn as_str(&self) -> (r: &'static str)
        ensures
            r@ == tool_text(*self),
    {
        match self {
            ToolName::Bash => "bash",
            ToolName::ReadFile => "read_file",
            ToolName::WriteFile => "write_file",
            ToolName::EditFile => "edit_file",
            ToolName::MultiEdit => "multi_edit",
            ToolName::ListDirectory => "list_directory",
            ToolName::Glob => "glob",
            ToolName::Grep => "grep",
            ToolName::NotebookRead => "notebook_read",
            ToolName::NotebookEdit => "notebook_edit",
            ToolName::WebFetch => "web_fetch",
            ToolName::SearchWeb => "search_web",
            ToolName::TodoRead => "todo_read",
            ToolName::TodoWrite => "todo_write",
            ToolName::DispatchAgent => "dispatch_agent",
            ToolName::SubmitPlan => "submit_plan",
        }
    }
}

/// Input of `bash`.
#[derive(Debug, Clone)]
pub struct BashInput {
    pub command: String,
    pub timeout: Option<u64>,
}

/// Input of `read_file`.
#[derive(Debug, Clone)]
pub struct ReadFileInput {
    pub path: String,
    pub offset: Option<u32>,
    pub limit: Option<u32>,
}

/// Input of `write_file`.
#[derive(Debug, Clone)]
pub struct WriteFileInput {
    pub path: String,
    pub content: String,
}

/// Input of `edit_file`.
#[derive(Debug, Clone)]
pub struct EditFileInput {
    pub path: String,
    pub old_text: String,
    pub new_text: String,
    pub replace_all: Option<bool>,
}

/// One edit of `multi_edit`.
#[derive(Debug, Clone)]
pub struct EditOperation {
    pub old_text: String,
    pub new_text: String,
}

/// Input of `multi_edit`.
#[derive(Debug, Clone)]
pub struct MultiEditInput {
    pub path: String,
    pub edits: Vec<EditOperation>,
}

/// Input of `list_directory`.
#[derive(Debug, Clone)]
pub struct ListDirectoryInput {
    pub path: String,
}

/// Input of `glob`.
#[derive(Debug, Clone)]
pub struct GlobInput {
    pub pattern: String,
    pub path: Option<String>,
}

/// Input of `grep`.
#[derive(Debug, Clone)]
pub struct GrepInput {
    pub pattern: String,
    pub path: Option<String>,
    /// File-name pattern that a searched file must match.
    pub file_pattern: Option<String>,
}

/// Input of `notebook_read`.
#[derive(Debug, Clone)]
pub struct NotebookReadInput {
    pub path: String,
}

/// Input of `notebook_edit`.
#[derive(Debug, Clone)]
pub struct NotebookEditInput {
    pub path: String,
    pub cell_number: u32,
    pub new_source: String,
    pub cell_type: Option<String>,
    pub edit_mode: Option<String>,
}

/// Input of `web_fetch` (the prompt is accepted and not used yet).
#[derive(Debug, Clone)]
pub struct WebFetchInput {
    pub url: String,
    pub _prompt: Option<String>,
}

/// Input of `search_web`.
#[derive(Debug, Clone)]
pub struct WebSearchInput {
    pub query: String,
    pub allowed_domains: Option<Vec<String>>,
    pub blocked_domains: Option<Vec<String>>,
}

/// Input of `submit_plan`.
#[derive(Debug, Clone)]
pub struct SubmitPlanInput {
    pub plan: String,
}

/// Input of `dispatch_agent`.
#[derive(Debug, Clone)]
pub struct DispatchAgentInput {
    pub task: String,
    /// Agent type to use (such as `explore`, `plan`, `pr-review`).
    pub agent_type: Option<String>,
    /// Override of the agent's allowed tools.
    pub tools: Option<Vec<String>>,
}

/// One entry of the todo list.
#[derive(Debug, Clone)]
pub struct TodoItem {
    pub id: String,
    pub content: String,
    pub status: String,
    pub priority: String,
}

/// Input of `todo_write`.
#[derive(Debug, Clone)]
pub struct TodoWriteInput {
    pub todos: Vec<TodoItem>,
}

} // verus!
