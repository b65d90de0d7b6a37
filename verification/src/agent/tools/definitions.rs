//! The definitions of the tools as the model sees them: name, description and the
//! JSON schema of the input.
use vstd::prelude::*;

use super::types::{tool_named, tool_text, ToolName};
use crate::agent::types::ToolDefinition;
use crate::text::owned;
use crate::text_map::{distinct_keys, TextMap};

verus! {

broadcast use vstd::string::group_string_axioms;

/// Description of `bash`.
pub const BASH_DESCRIPTION: &'static str = "Runs a shell command in the project directory and returns its combined output. Use it for git, builds, tests and other command-line work. Prefer the dedicated file tools for reading, searching and editing files. Commands that run longer than the timeout are stopped.";

/// Description of `read_file`.
pub const READ_FILE_DESCRIPTION: &'static str = "Reads a text file of the project and returns its lines. An optional offset skips that many lines first, and an optional limit caps how many lines are returned. Paths are relative to the project root.";

/// Description of `write_file`.
pub const WRITE_FILE_DESCRIPTION: &'static str = "Writes content to a file of the project, creating missing parent directories and replacing the file if it exists. Read a file before overwriting it, and prefer edit_file for small changes.";

/// Description of `edit_file`.
pub const EDIT_FILE_DESCRIPTION: &'static str = "Replaces text in a file of the project. old_text must occur in the file; by default only its first occurrence is replaced, and replace_all replaces every occurrence. Include enough surrounding text to make old_text unique.";

/// Description of `multi_edit`.
pub const MULTI_EDIT_DESCRIPTION: &'static str = "Applies several edits to one file in order. Each edit replaces the first occurrence of its old_text with its new_text in the result of the edits before it; the whole operation fails if any old_text is missing.";

/// Description of `list_directory`.
pub const LIST_DIRECTORY_DESCRIPTION: &'static str = "Lists the entries of a directory of the project, one per line and sorted by name, each marked as a file, a directory or another kind of entry.";

/// Description of `glob`.
pub const GLOB_DESCRIPTION: &'static str = "Finds files whose paths match a glob pattern such as **/*.rs, newest first. Use it to locate files by name before reading them instead of guessing paths.";

/// Description of `grep`.
pub const GREP_DESCRIPTION: &'static str = "Searches the contents of the project's text files for a regular expression and returns matching lines as path:line:text. An optional file-name pattern narrows the files searched; results are capped.";

/// Description of `notebook_read`.
pub const NOTEBOOK_READ_DESCRIPTION: &'static str = "Reads a Jupyter notebook and returns each cell with its number, its type and its source, so that cells can be referred to by number when editing.";

/// Description of `notebook_edit`.
pub const NOTEBOOK_EDIT_DESCRIPTION: &'static str = "Edits one cell of a Jupyter notebook: replace the source of a cell, insert a new code or markdown cell at a position, or delete a cell. Cell numbers start at zero.";

/// Description of `web_fetch`.
pub const WEB_FETCH_DESCRIPTION: &'static str = "Fetches a web page and returns its readable text. Use it to read documentation or other pages linked from the task or found by search_web.";

/// Description of `search_web`.
pub const SEARCH_WEB_DESCRIPTION: &'static str = "Searches the web and returns a numbered list of results with title, address and snippet. Results can be limited to some domains or exclude others.";

/// Description of `todo_read`.
pub const TODO_READ_DESCRIPTION: &'static str = "Returns the current todo list of the session with each item's status and priority. Use it to check progress on a multi-step task.";

/// Description of `todo_write`.
pub const TODO_WRITE_DESCRIPTION: &'static str = "Replaces the todo list of the session. Use it to plan and track multi-step work: add the steps, mark one in progress at a time, and mark each completed as soon as it is done.";

/// Description of `dispatch_agent`.
pub const DISPATCH_AGENT_DESCRIPTION: &'static str = "Starts a sub-agent on a self-contained task and returns its final report. Choose an agent type suited to the task (explore by default) and describe the task fully, since the sub-agent sees nothing else of the conversation.";

/// Description of `submit_plan`.
pub const SUBMIT_PLAN_DESCRIPTION: &'static str = "Submits an implementation plan in Markdown for the user's approval and waits for the decision. Implement nothing before the plan is approved.";

/// Input schema of `bash`.
pub const BASH_SCHEMA: &'static str = "{\"type\":\"object\",\"properties\":{\"command\":{\"type\":\"string\",\"description\":\"The shell command to execute\"},\"timeout\":{\"type\":\"integer\",\"description\":\"Timeout in seconds (optional)\"}},\"required\":[\"command\"]}";

/// Input schema of `read_file`.
pub const READ_FILE_SCHEMA: &'static str = "{\"type\":\"object\",\"properties\":{\"path\":{\"type\":\"string\",\"description\":\"Relative path to the file\"},\"offset\":{\"type\":\"integer\",\"description\":\"Starting line number (optional)\"},\"limit\":{\"type\":\"integer\",\"description\":\"Number of lines to read (optional)\"}},\"required\":[\"path\"]}";

/// Input schema of `write_file`.
pub const WRITE_FILE_SCHEMA: &'static str = "{\"type\":\"object\",\"properties\":{\"path\":{\"type\":\"string\",\"description\":\"Relative path to the file\"},\"content\":{\"type\":\"string\",\"description\":\"Content to write\"}},\"required\":[\"path\",\"content\"]}";

/// Input schema of `edit_file`.
pub const EDIT_FILE_SCHEMA: &'static str = "{\"type\":\"object\",\"properties\":{\"path\":{\"type\":\"string\",\"description\":\"Relative path to the file\"},\"old_text\":{\"type\":\"string\",\"description\":\"Text to find\"},\"new_text\":{\"type\":\"string\",\"description\":\"Text to replace with\"},\"replace_all\":{\"type\":\"boolean\",\"description\":\"Replace all occurrences (default: false)\"}},\"required\":[\"path\",\"old_text\",\"new_text\"]}";

/// Input schema of `multi_edit`.
pub const MULTI_EDIT_SCHEMA: &'static str = "{\"type\":\"object\",\"properties\":{\"path\":{\"type\":\"string\",\"description\":\"Relative path to the file\"},\"edits\":{\"type\":\"array\",\"description\":\"List of edits to apply\",\"items\":{\"type\":\"object\",\"properties\":{\"old_text\":{\"type\":\"string\"},\"new_text\":{\"type\":\"string\"}},\"required\":[\"old_text\",\"new_text\"]}}},\"required\":[\"path\",\"edits\"]}";

/// Input schema of `list_directory`.
pub const LIST_DIRECTORY_SCHEMA: &'static str = "{\"type\":\"object\",\"properties\":{\"path\":{\"type\":\"string\",\"description\":\"Relative path to directory\"}},\"required\":[\"path\"]}";

/// Input schema of `glob`.
pub const GLOB_SCHEMA: &'static str = "{\"type\":\"object\",\"properties\":{\"pattern\":{\"type\":\"string\",\"description\":\"Glob pattern (e.g., **/*.rs)\"},\"path\":{\"type\":\"string\",\"description\":\"Base directory (optional, defaults to project root)\"}},\"required\":[\"pattern\"]}";

/// Input schema of `grep`.
pub const GREP_SCHEMA: &'static str = "{\"type\":\"object\",\"properties\":{\"pattern\":{\"type\":\"string\",\"description\":\"Regex pattern to search for\"},\"path\":{\"type\":\"string\",\"description\":\"Directory to search (optional)\"},\"include\":{\"type\":\"string\",\"description\":\"File pattern filter (e.g., *.rs)\"}},\"required\":[\"pattern\"]}";

/// Input schema of `notebook_read`.
pub const NOTEBOOK_READ_SCHEMA: &'static str = "{\"type\":\"object\",\"properties\":{\"path\":{\"type\":\"string\",\"description\":\"Relative path to .ipynb file\"}},\"required\":[\"path\"]}";

/// Input schema of `notebook_edit`.
pub const NOTEBOOK_EDIT_SCHEMA: &'static str = "{\"type\":\"object\",\"properties\":{\"path\":{\"type\":\"string\",\"description\":\"Relative path to .ipynb file\"},\"cell_number\":{\"type\":\"integer\",\"description\":\"Zero-indexed cell position\"},\"new_source\":{\"type\":\"string\",\"description\":\"New cell content\"},\"cell_type\":{\"type\":\"string\",\"enum\":[\"code\",\"markdown\"],\"description\":\"Cell type (required for insert)\"},\"edit_mode\":{\"type\":\"string\",\"enum\":[\"replace\",\"insert\",\"delete\"],\"description\":\"Edit mode (default: replace)\"}},\"required\":[\"path\",\"cell_number\",\"new_source\"]}";

/// Input schema of `web_fetch`.
pub const WEB_FETCH_SCHEMA: &'static str = "{\"type\":\"object\",\"properties\":{\"url\":{\"type\":\"string\",\"description\":\"URL to fetch\"},\"prompt\":{\"type\":\"string\",\"description\":\"What to extract from the page\"}},\"required\":[\"url\",\"prompt\"]}";

/// Input schema of `search_web`.
pub const SEARCH_WEB_SCHEMA: &'static str = "{\"type\":\"object\",\"properties\":{\"query\":{\"type\":\"string\",\"description\":\"Search query\"},\"allowed_domains\":{\"type\":\"array\",\"items\":{\"type\":\"string\"},\"description\":\"Only include these domains\"},\"blocked_domains\":{\"type\":\"array\",\"items\":{\"type\":\"string\"},\"description\":\"Exclude these domains\"}},\"required\":[\"query\"]}";

/// Input schema of `todo_read`.
pub const TODO_READ_SCHEMA: &'static str = "{\"type\":\"object\",\"properties\":{},\"required\":[]}";

/// Input schema of `todo_write`.
pub const TODO_WRITE_SCHEMA: &'static str = "{\"type\":\"object\",\"properties\":{\"todos\":{\"type\":\"array\",\"description\":\"Task list\",\"items\":{\"type\":\"object\",\"properties\":{\"id\":{\"type\":\"string\"},\"content\":{\"type\":\"string\"},\"status\":{\"type\":\"string\",\"enum\":[\"pending\",\"in_progress\",\"completed\"]},\"priority\":{\"type\":\"string\",\"enum\":[\"high\",\"medium\",\"low\"]}},\"required\":[\"id\",\"content\",\"status\",\"priority\"]}}},\"required\":[\"todos\"]}";

/// Input schema of `dispatch_agent`.
pub const DISPATCH_AGENT_SCHEMA: &'static str = "{\"type\":\"object\",\"properties\":{\"task\":{\"type\":\"string\",\"description\":\"Detailed task for the sub-agent to complete\"},\"agent_type\":{\"type\":\"string\",\"description\":\"Agent type to use: explore (default), plan, pr-review, pr-comments, security-review, summarize, bash-summarize, session-title\",\"enum\":[\"explore\",\"plan\",\"pr-review\",\"pr-comments\",\"security-review\",\"summarize\",\"bash-summarize\",\"session-title\"]},\"tools\":{\"type\":\"array\",\"items\":{\"type\":\"string\"},\"description\":\"Override allowed tools for the agent (optional)\"}},\"required\":[\"task\"]}";

/// Input schema of `submit_plan`.
pub const SUBMIT_PLAN_SCHEMA: &'static str = "{\"type\":\"object\",\"properties\":{\"plan\":{\"type\":\"string\",\"description\":\"Markdown-formatted plan\"}},\"required\":[\"plan\"]}";

/// The value of a tool definition: name, description, input schema.
pub open spec fn definition_view(d: ToolDefinition) -> (Seq<char>, Seq<char>, Seq<char>) {
    (d.name@, d.description@, d.input_schema@)
}

/// The values of tool definitions.
pub open spec fn definitions_view(v: Seq<ToolDefinition>) -> Seq<(Seq<char>, Seq<char>, Seq<char>)> {
    v.map_values(|d: ToolDefinition| definition_view(d))
}

/// Every tool, in the order in which the model is offered them.
pub open spec fn all_tools() -> Seq<ToolName> {
    seq![
        ToolName::Bash,
        ToolName::ReadFile,
        ToolName::WriteFile,
        ToolName::EditFile,
        ToolName::MultiEdit,
        ToolName::ListDirectory,
        ToolName::Glob,
        ToolName::Grep,
        ToolName::NotebookRead,
        ToolName::NotebookEdit,
        ToolName::WebFetch,
        ToolName::SearchWeb,
        ToolName::TodoRead,
        ToolName::TodoWrite,
        ToolName::DispatchAgent,
        ToolName::SubmitPlan,
    ]
}

/// The description of a tool.
pub open spec fn tool_description(t: ToolName) -> Seq<char> {
    match t {
        ToolName::Bash => BASH_DESCRIPTION@,
        ToolName::ReadFile => READ_FILE_DESCRIPTION@,
        ToolName::WriteFile => WRITE_FILE_DESCRIPTION@,
        ToolName::EditFile => EDIT_FILE_DESCRIPTION@,
        ToolName::MultiEdit => MULTI_EDIT_DESCRIPTION@,
        ToolName::ListDirectory => LIST_DIRECTORY_DESCRIPTION@,
        ToolName::Glob => GLOB_DESCRIPTION@,
        ToolName::Grep => GREP_DESCRIPTION@,
        ToolName::NotebookRead => NOTEBOOK_READ_DESCRIPTION@,
        ToolName::NotebookEdit => NOTEBOOK_EDIT_DESCRIPTION@,
        ToolName::WebFetch => WEB_FETCH_DESCRIPTION@,
        ToolName::SearchWeb => SEARCH_WEB_DESCRIPTION@,
        ToolName::TodoRead => TODO_READ_DESCRIPTION@,
        ToolName::TodoWrite => TODO_WRITE_DESCRIPTION@,
        ToolName::DispatchAgent => DISPATCH_AGENT_DESCRIPTION@,
        ToolName::SubmitPlan => SUBMIT_PLAN_DESCRIPTION@,
    }
}

/// The input schema of a tool, as JSON text.
pub open spec fn tool_schema(t: ToolName) -> Seq<char> {
    match t {
        ToolName::Bash => BASH_SCHEMA@,
        ToolName::ReadFile => READ_FILE_SCHEMA@,
        ToolName::WriteFile => WRITE_FILE_SCHEMA@,
        ToolName::EditFile => EDIT_FILE_SCHEMA@,
        ToolName::MultiEdit => MULTI_EDIT_SCHEMA@,
        ToolName::ListDirectory => LIST_DIRECTORY_SCHEMA@,
        ToolName::Glob => GLOB_SCHEMA@,
        ToolName::Grep => GREP_SCHEMA@,
        ToolName::NotebookRead => NOTEBOOK_READ_SCHEMA@,
        ToolName::NotebookEdit => NOTEBOOK_EDIT_SCHEMA@,
        ToolName::WebFetch => WEB_FETCH_SCHEMA@,
        ToolName::SearchWeb => SEARCH_WEB_SCHEMA@,
        ToolName::TodoRead => TODO_READ_SCHEMA@,
        ToolName::TodoWrite => TODO_WRITE_SCHEMA@,
        ToolName::DispatchAgent => DISPATCH_AGENT_SCHEMA@,
        ToolName::SubmitPlan => SUBMIT_PLAN_SCHEMA@,
    }
}

/// The definitions of every tool, in order.
pub open spec fn tool_definitions() -> Seq<(Seq<char>, Seq<char>, Seq<char>)> {
    all_tools().map_values(|t: ToolName| (tool_text(t), tool_description(t), tool_schema(t)))
}

/// The description of every tool under its name, in order.
pub open spec fn tool_descriptions() -> Seq<(Seq<char>, Seq<char>)> {
    all_tools().map_values(|t: ToolName| (tool_text(t), tool_description(t)))
}

/// The tools in order, as an executable list.
pub fn tool_list() -> (r: Vec<ToolName>)
    ensures
        r@ == all_tools(),
{
    let mut r: Vec<ToolName> = Vec::new();
    r.push(ToolName::Bash);
    r.push(ToolName::ReadFile);
    r.push(ToolName::WriteFile);
    r.push(ToolName::EditFile);
    r.push(ToolName::MultiEdit);
    r.push(ToolName::ListDirectory);
    r.push(ToolName::Glob);
    r.push(ToolName::Grep);
    r.push(ToolName::NotebookRead);
    r.push(ToolName::NotebookEdit);
    r.push(ToolName::WebFetch);
    r.push(ToolName::SearchWeb);
    r.push(ToolName::TodoRead);
    r.push(ToolName::TodoWrite);
    r.push(ToolName::DispatchAgent);
    r.push(ToolName::SubmitPlan);
    assert(r@ =~= all_tools());
    r
}

/// The description of a tool.
pub fn description_of(t: ToolName) -> (r: &'static str)
    ensures
        r@ == tool_description(t),
{
    match t {
        ToolName::Bash => BASH_DESCRIPTION,
        ToolName::ReadFile => READ_FILE_DESCRIPTION,
        ToolName::WriteFile => WRITE_FILE_DESCRIPTION,
        ToolName::EditFile => EDIT_FILE_DESCRIPTION,
        ToolName::MultiEdit => MULTI_EDIT_DESCRIPTION,
        ToolName::ListDirectory => LIST_DIRECTORY_DESCRIPTION,
        ToolName::Glob => GLOB_DESCRIPTION,
        ToolName::Grep => GREP_DESCRIPTION,
        ToolName::NotebookRead => NOTEBOOK_READ_DESCRIPTION,
        ToolName::NotebookEdit => NOTEBOOK_EDIT_DESCRIPTION,
        ToolName::WebFetch => WEB_FETCH_DESCRIPTION,
        ToolName::SearchWeb => SEARCH_WEB_DESCRIPTION,
        ToolName::TodoRead => TODO_READ_DESCRIPTION,
        ToolName::TodoWrite => TODO_WRITE_DESCRIPTION,
        ToolName::DispatchAgent => DISPATCH_AGENT_DESCRIPTION,
        ToolName::SubmitPlan => SUBMIT_PLAN_DESCRIPTION,
    }
}

/// The input schema of a tool.
pub fn schema_of(t: ToolName) -> (r: &'static str)
    ensures
        r@ == tool_schema(t),
{
    match t {
        ToolName::Bash => BASH_SCHEMA,
        ToolName::ReadFile => READ_FILE_SCHEMA,
        ToolName::WriteFile => WRITE_FILE_SCHEMA,
        ToolName::EditFile => EDIT_FILE_SCHEMA,
        ToolName::MultiEdit => MULTI_EDIT_SCHEMA,
        ToolName::ListDirectory => LIST_DIRECTORY_SCHEMA,
        ToolName::Glob => GLOB_SCHEMA,
        ToolName::Grep => GREP_SCHEMA,
        ToolName::NotebookRead => NOTEBOOK_READ_SCHEMA,
        ToolName::NotebookEdit => NOTEBOOK_EDIT_SCHEMA,
        ToolName::WebFetch => WEB_FETCH_SCHEMA,
        ToolName::SearchWeb => SEARCH_WEB_SCHEMA,
        ToolName::TodoRead => TODO_READ_SCHEMA,
        ToolName::TodoWrite => TODO_WRITE_SCHEMA,
        ToolName::DispatchAgent => DISPATCH_AGENT_SCHEMA,
        ToolName::SubmitPlan => SUBMIT_PLAN_SCHEMA,
    }
}

/// The definitions of every tool: name, description and input schema, in order.
pub fn get_tool_definitions() -> (r: Vec<ToolDefinition>)
    ensures
        definitions_view(r@) == tool_definitions(),
{
    let tools = tool_list();
    let ghost want = tool_definitions();
    let mut r: Vec<ToolDefinition> = Vec::new();
    let mut i: usize = 0;
    while i < tools.len()
        invariant
            i <= tools@.len(),
            tools@ == all_tools(),
            want == tool_definitions(),
            definitions_view(r@) == want.take(i as int),
        decreases tools@.len() - i,
    {
        let t = tools[i];
        let ghost before = r@;
        r.push(
            ToolDefinition {
                name: owned(t.as_str()),
                description: owned(description_of(t)),
                input_schema: owned(schema_of(t)),
            },
        );
        assert(definitions_view(r@) =~= definitions_view(before).push(want[i as int]));
        assert(definitions_view(r@) =~= want.take(i + 1));
        i = i + 1;
    }
    assert(want.take(tools@.len() as int) =~= want);
    r
}

/// The description of every tool under its name, in order (for the settings screen).
pub fn get_tool_descriptions() -> (r: TextMap)
    ensures
        distinct_keys(r.pairs()),
        r.pairs() == tool_descriptions(),
{
    let tools = tool_list();
    let ghost want = tool_descriptions();
    let mut m = TextMap::new();
    let mut i: usize = 0;
    while i < tools.len()
        invariant
            i <= tools@.len(),
            tools@ == all_tools(),
            want == tool_descriptions(),
            distinct_keys(m.pairs()),
            m.pairs() == want.take(i as int),
        decreases tools@.len() - i,
    {
        let t = tools[i];
        let ghost before = m.pairs();
        proof {
            assert forall|j: int| 0 <= j < before.len() implies (#[trigger] before[j]).0
                != tool_text(t) by {
                assert(before[j] == want[j]);
                super::types::lemma_tool_text_injective(all_tools()[j], t);
            }
        }
        m.insert(owned(t.as_str()), owned(description_of(t)));
        assert(m.pairs() =~= want.take(i + 1));
        i = i + 1;
    }
    assert(want.take(tools@.len() as int) =~= want);
    m
}

/// The tools offered to the model and the descriptions shown in the settings are in
/// step: the same tools, in the same order, with the same descriptions; and every
/// offered name is read back as the tool it was written for.
pub proof fn law_definitions_match_descriptions()
    ensures
        tool_definitions().len() == tool_descriptions().len(),
        forall|i: int|
            0 <= i < tool_definitions().len() ==> (#[trigger] tool_definitions()[i]).0
                == tool_descriptions()[i].0 && tool_definitions()[i].1 == tool_descriptions()[i].1,
        forall|i: int|
            0 <= i < tool_definitions().len() ==> tool_named(#[trigger] tool_definitions()[i].0)
                == Some(all_tools()[i]),
{
    assert forall|i: int| 0 <= i < tool_definitions().len() implies tool_named(
        #[trigger] tool_definitions()[i].0,
    ) == Some(all_tools()[i]) by {
        super::types::law_tool_name_roundtrip(all_tools()[i]);
    }
}

} // verus!
