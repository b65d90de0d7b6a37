//! The decisions of dispatching a sub-agent: whether it may start, which agent
//! type runs, which tools it gets, and its system prompt.
use vstd::prelude::*;

use super::definitions::{definitions_view, get_tool_definitions, tool_definitions};
use crate::agent::error::{error_text, AgentError};
use crate::agent::prompts::{
    agent_view, agent_with_id, explore_agent, get_agent_type, get_default_agent_type,
    interpolate_prompt_on, interpolated, AgentType, AgentTypeView,
};
use crate::agent::types::ToolDefinition;
use crate::bindings::{is_date_text, today_utc};
use crate::text::{
    chars_of, decimal, decimal_exec, opt_str_view, owned, push_all, push_str, str_eq, str_views,
    string_of, strings_view,
};
use crate::text_map::{lookup, TextMap};

verus! {

broadcast use vstd::string::group_string_axioms;

/// Tools of a sub-agent whose type names none.
pub const DEFAULT_SUBAGENT_TOOLS: [&'static str; 7] = [
    "read_file",
    "list_directory",
    "glob",
    "grep",
    "web_fetch",
    "search_web",
    "todo_read",
];

/// The tools of a sub-agent whose type names none.
pub open spec fn default_tools() -> Seq<Seq<char>> {
    seq![
        "read_file"@,
        "list_directory"@,
        "glob"@,
        "grep"@,
        "web_fetch"@,
        "search_web"@,
        "todo_read"@,
    ]
}

/// The message when the dispatch depth has reached its limit.
pub open spec fn depth_message(max_depth: u32) -> Seq<char> {
    "Maximum sub-agent depth ("@ + decimal(max_depth as nat) + ") exceeded"@
}

/// Checks that a sub-agent may start: not when the run is cancelled, nor when the
/// dispatch depth has reached its limit.
pub fn check_subagent_start(cancelled: bool, current_depth: u32, max_depth: u32) -> (r: Result<
    (),
    AgentError,
>)
    ensures
        r is Ok <==> !cancelled && current_depth < max_depth,
        r matches Err(e) ==> if cancelled {
            e is Cancelled
        } else {
            e matches AgentError::ToolExecutionError(m) && m@ == depth_message(max_depth)
        },
{
    if cancelled {
        return Err(AgentError::Cancelled);
    }
    if current_depth >= max_depth {
        let mut m = chars_of("Maximum sub-agent depth (");
        let d = decimal_exec(max_depth as u64);
        push_all(&mut m, d.as_slice());
        push_str(&mut m, ") exceeded");
        return Err(AgentError::ToolExecutionError(string_of(m.as_slice())));
    }
    Ok(())
}

/// The agent type that runs: the one named, else explore.
pub open spec fn selected_agent(id: Option<Seq<char>>) -> AgentTypeView {
    match id {
        Some(i) => match agent_with_id(i) {
            Some(a) => a,
            None => explore_agent(),
        },
        None => explore_agent(),
    }
}

/// Picks the agent type of a sub-agent: the one named when it exists, else explore.
pub fn select_agent_type(id: Option<&str>) -> (r: AgentType)
    ensures
        agent_view(r) == selected_agent(opt_str_view(id)),
{
    match id {
        Some(i) => match get_agent_type(i) {
            Some(a) => a,
            None => get_default_agent_type(),
        },
        None => get_default_agent_type(),
    }
}

/// The names of the tools a sub-agent may use: the ones given, else its type's,
/// else the defaults.
pub open spec fn allowed_names(given: Option<Seq<Seq<char>>>, agent: AgentTypeView) -> Seq<
    Seq<char>,
> {
    match given {
        Some(ts) => ts,
        None => if agent.allowed_tools.len() == 0 {
            default_tools()
        } else {
            agent.allowed_tools
        },
    }
}

/// The definitions whose names are among `names`, in order.
pub open spec fn defs_named(
    defs: Seq<(Seq<char>, Seq<char>, Seq<char>)>,
    names: Seq<Seq<char>>,
) -> Seq<(Seq<char>, Seq<char>, Seq<char>)>
    decreases defs.len(),
{
    if defs.len() == 0 {
        seq![]
    } else if names.contains(defs.last().0) {
        defs_named(defs.drop_last(), names).push(defs.last())
    } else {
        defs_named(defs.drop_last(), names)
    }
}

/// The message of the error when no tool is left.
pub open spec fn no_tools_message() -> Seq<char> {
    "No valid tools available for sub-agent"@
}

/// What filtering the tools of a sub-agent keeps, or `None` when nothing is kept
/// although the agent type uses tools.
pub open spec fn filtered_tools(given: Option<Seq<Seq<char>>>, agent: AgentTypeView) -> Option<
    Seq<(Seq<char>, Seq<char>, Seq<char>)>,
> {
    let kept = defs_named(tool_definitions(), allowed_names(given, agent));
    if kept.len() == 0 && !agent.flags.no_tools {
        None
    } else {
        Some(kept)
    }
}

/// The value of an optional list of strings.
pub open spec fn opt_strings_view(v: Option<Vec<String>>) -> Option<Seq<Seq<char>>> {
    match v {
        Some(ts) => Some(strings_view(ts@)),
        None => None,
    }
}

fn contains_name(names: &Vec<String>, t: &str) -> (r: bool)
    ensures
        r == strings_view(names@).contains(t@),
{
    let ghost nv = strings_view(names@);
    let mut i: usize = 0;
    while i < names.len()
        invariant
            i <= names@.len(),
            nv == strings_view(names@),
            forall|j: int| 0 <= j < i ==> nv[j] != t@,
        decreases names@.len() - i,
    {
        if str_eq(names[i].as_str(), t) {
            assert(nv[i as int] == t@);
            return true;
        }
        i = i + 1;
    }
    false
}

fn default_tool_names() -> (r: Vec<String>)
    ensures
        strings_view(r@) == default_tools(),
{
    let mut r: Vec<String> = Vec::new();
    let mut i: usize = 0;
    while i < DEFAULT_SUBAGENT_TOOLS.len()
        invariant
            i <= 7,
            strings_view(r@) == str_views(DEFAULT_SUBAGENT_TOOLS@).take(i as int),
        decreases 7 - i,
    {
        let ghost before = r@;
        r.push(owned(DEFAULT_SUBAGENT_TOOLS[i]));
        assert(strings_view(r@) =~= strings_view(before).push(DEFAULT_SUBAGENT_TOOLS@[i as int]@));
        assert(strings_view(r@) =~= str_views(DEFAULT_SUBAGENT_TOOLS@).take(i + 1));
        i = i + 1;
    }
    assert(str_views(DEFAULT_SUBAGENT_TOOLS@).take(7) =~= default_tools());
    r
}

/// Chooses the tool definitions of a sub-agent: those named by the given list, else
/// by its type, else the defaults; failing when none is left and the agent type uses
/// tools.
pub fn filter_tools(allowed_tools: Option<Vec<String>>, agent_type: &AgentType) -> (r: Result<
    Vec<ToolDefinition>,
    AgentError,
>)
    ensures
        match r {
            Ok(v) => filtered_tools(opt_strings_view(allowed_tools), agent_view(*agent_type))
                == Some(definitions_view(v@)),
            Err(e) => filtered_tools(opt_strings_view(allowed_tools), agent_view(*agent_type))
                is None && (e matches AgentError::ToolExecutionError(m) && m@ == no_tools_message()),
        },
{
    let all_tools = get_tool_definitions();
    let ghost defs = definitions_view(all_tools@);
    let allowed: Vec<String> = match allowed_tools {
        Some(ts) => ts,
        None => if agent_type.allowed_tools.len() == 0 {
            default_tool_names()
        } else {
            crate::text::copy_strings(&agent_type.allowed_tools)
        },
    };
    let ghost names = strings_view(allowed@);
    assert(names == allowed_names(opt_strings_view(allowed_tools), agent_view(*agent_type)));
    let mut kept: Vec<ToolDefinition> = Vec::new();
    let mut i: usize = 0;
    while i < all_tools.len()
        invariant
            i <= all_tools@.len(),
            defs == definitions_view(all_tools@),
            defs == tool_definitions(),
            names == strings_view(allowed@),
            definitions_view(kept@) == defs_named(defs.take(i as int), names),
        decreases all_tools@.len() - i,
    {
        let d = &all_tools[i];
        assert(defs.take(i + 1).drop_last() =~= defs.take(i as int));
        if contains_name(&allowed, d.name.as_str()) {
            let ghost before = kept@;
            kept.push(
                ToolDefinition {
                    name: owned(d.name.as_str()),
                    description: owned(d.description.as_str()),
                    input_schema: owned(d.input_schema.as_str()),
                },
            );
            assert(definitions_view(kept@) =~= definitions_view(before).push(defs[i as int]));
        }
        i = i + 1;
    }
    assert(defs.take(all_tools@.len() as int) =~= defs);
    if kept.len() == 0 && !agent_type.flags.no_tools {
        return Err(AgentError::ToolExecutionError(owned("No valid tools available for sub-agent")));
    }
    Ok(kept)
}

/// What the tools of a sub-agent are: none for an agent type without tools, else
/// the filtered ones (`None` when that fails).
pub open spec fn subagent_tool_choice(given: Option<Seq<Seq<char>>>, agent: AgentTypeView) -> Option<
    Seq<(Seq<char>, Seq<char>, Seq<char>)>,
> {
    if agent.flags.no_tools {
        Some(seq![])
    } else {
        filtered_tools(given, agent)
    }
}

/// Chooses the tools of a sub-agent; the error names the agent type.
pub fn subagent_tools(allowed_tools: Option<Vec<String>>, agent_type: &AgentType) -> (r: Result<
    Vec<ToolDefinition>,
    AgentError,
>)
    ensures
        match r {
            Ok(v) => subagent_tool_choice(opt_strings_view(allowed_tools), agent_view(*agent_type))
                == Some(definitions_view(v@)),
            Err(e) => subagent_tool_choice(opt_strings_view(allowed_tools), agent_view(*agent_type))
                is None && (e matches AgentError::ToolExecutionError(m) && m@ == "'"@
                + agent_type.id@ + "' agent tool setup failed: "@ + "Tool execution error: "@
                + no_tools_message()),
        },
{
    if agent_type.flags.no_tools {
        let v: Vec<ToolDefinition> = Vec::new();
        assert(definitions_view(v@) =~= Seq::<(Seq<char>, Seq<char>, Seq<char>)>::empty());
        return Ok(v);
    }
    let ghost given = opt_strings_view(allowed_tools);
    match filter_tools(allowed_tools, agent_type) {
        Ok(v) => {
            assert(subagent_tool_choice(given, agent_view(*agent_type)) == filtered_tools(
                given,
                agent_view(*agent_type),
            ));
            Ok(v)
        },
        Err(e) => {
            let mut m = chars_of("'");
            push_str(&mut m, agent_type.id.as_str());
            push_str(&mut m, "' agent tool setup failed: ");
            let et = e.message();
            push_str(&mut m, et.as_str());
            let r = string_of(m.as_slice());
            assert(r@ =~= "'"@ + agent_type.id@ + "' agent tool setup failed: "@
                + "Tool execution error: "@ + no_tools_message());
            Err(AgentError::ToolExecutionError(r))
        },
    }
}

/// The prompt an agent type runs with: the one configured for its id, else its own.
pub open spec fn agent_prompt(agent: AgentTypeView, custom: Option<Seq<(Seq<char>, Seq<char>)>>) -> Seq<
    char,
> {
    match custom {
        Some(p) => match lookup(p, agent.id) {
            Some(text) => text,
            None => agent.prompt,
        },
        None => agent.prompt,
    }
}

/// The value of an optional map of prompts.
pub open spec fn opt_map_view(m: Option<&TextMap>) -> Option<Seq<(Seq<char>, Seq<char>)>> {
    match m {
        Some(x) => Some(x.pairs()),
        None => None,
    }
}

/// The names of tool definitions, in order.
pub open spec fn definition_names(defs: Seq<(Seq<char>, Seq<char>, Seq<char>)>) -> Seq<Seq<char>> {
    defs.map_values(|d: (Seq<char>, Seq<char>, Seq<char>)| d.0)
}

/// Builds the system prompt of a sub-agent on a given date: its prompt (the
/// configured one when there is one) with the tools, project path and date filled in.
pub fn build_agent_system_prompt_on(
    agent_type: &AgentType,
    tools: &[ToolDefinition],
    project_path: &str,
    custom_prompts: Option<&TextMap>,
    date: &str,
) -> (r: String)
    ensures
        r@ == interpolated(
            agent_prompt(agent_view(*agent_type), opt_map_view(custom_prompts)),
            definition_names(definitions_view(tools@)),
            Some(project_path@),
            date@,
        ),
{
    let ghost want = definition_names(definitions_view(tools@));
    let mut names: Vec<&str> = Vec::new();
    let mut i: usize = 0;
    while i < tools.len()
        invariant
            i <= tools@.len(),
            want == definition_names(definitions_view(tools@)),
            str_views(names@) == want.take(i as int),
        decreases tools@.len() - i,
    {
        let ghost before = names@;
        names.push(tools[i].name.as_str());
        assert(str_views(names@) =~= str_views(before).push(want[i as int]));
        assert(str_views(names@) =~= want.take(i + 1));
        i = i + 1;
    }
    assert(want.take(tools@.len() as int) =~= want);
    let prompt: &str = match custom_prompts {
        Some(m) => match m.get(agent_type.id.as_str()) {
            Some(p) => p.as_str(),
            None => agent_type.prompt.as_str(),
        },
        None => agent_type.prompt.as_str(),
    };
    interpolate_prompt_on(prompt, names.as_slice(), Some(project_path), date)
}

/// Builds the system prompt of a sub-agent for today's date.
pub fn build_agent_system_prompt(
    agent_type: &AgentType,
    tools: &[ToolDefinition],
    project_path: &str,
    custom_prompts: Option<&TextMap>,
) -> (r: String)
    ensures
        exists|date: Seq<char>|
            is_date_text(date) && r@ == #[trigger] interpolated(
                agent_prompt(agent_view(*agent_type), opt_map_view(custom_prompts)),
                definition_names(definitions_view(tools@)),
                Some(project_path@),
                date,
            ),
{
    let date = today_utc();
    build_agent_system_prompt_on(agent_type, tools, project_path, custom_prompts, date.as_str())
}

} // verus!
