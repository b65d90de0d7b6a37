//! Agent type registry and prompt interpolation.
use vstd::prelude::*;

use crate::bindings::{is_date_text, regex_replace_group, regex_replace_with_group, today_utc};
use crate::text::{
    chars_of, join, opt_str_view, str_views, join_exec, owned, push_all, push_str, replace_all, replace_str, str_eq,
    string_of, strings_view, trim, trim_exec,
};
use crate::text_map::{distinct_keys, pairs_view, TextMap};

verus! {

broadcast use vstd::string::group_string_axioms;

/// The prompt of the explore agent.
pub const EXPLORE_PROMPT: &'static str = "You are a fast, read-only exploration agent working in {PROJECT_PATH}.\n\nFind the files, symbols and facts that answer the task. Search before you read: use glob and grep to locate candidates, then read only what matters. Never modify files.\n\nAvailable tools: {ALLOWED_TOOLS}\nToday is {CURRENT_DATE}.\n\nEnd with a concise report: what you found, where (file paths and line numbers), and what remains uncertain.\n";

/// The prompt of the planning agent.
pub const PLAN_PROMPT: &'static str = "You are a software architect designing an implementation plan for the project in {PROJECT_PATH}.\n\nStudy the existing code before proposing changes. You may dispatch {AGENT:explore} agents for focused sub-explorations. Do not modify files.\n\nAvailable tools: {ALLOWED_TOOLS}\nToday is {CURRENT_DATE}.\n\nProduce a step-by-step plan: the files to change, the changes in each, the order, the risks, and how to verify the result.\n";

/// The prompt of the summarizing agent.
pub const SUMMARIZE_PROMPT: &'static str = "Summarize the conversation below so that the work can continue without it.\n\nKeep decisions and their reasons, user preferences, open problems, file paths and names that matter. Drop pleasantries and repeated content. Write plain prose in a few short paragraphs.\n";

/// The prompt of the bash-output summarizing agent.
pub const BASH_SUMMARIZE_PROMPT: &'static str = "Summarize the output of a shell command.\n\nKeep errors, warnings, failing tests, counts and paths exactly as printed. Collapse repeated lines and progress noise. State whether the command appears to have succeeded.\n";

/// The prompt of the session-title agent.
pub const SESSION_TITLE_PROMPT: &'static str = "Generate a short title for this session and a git branch name for its work.\n\nThe title has at most six words. The branch name is lowercase, uses hyphens between words, and has no spaces. Answer with the title on the first line and the branch name on the second.\n";

/// The prompt of the pull-request review agent.
pub const PR_REVIEW_PROMPT: &'static str = "You review a pull request in {PROJECT_PATH}.\n\nRead the diff with {TOOL:bash} (git diff), then read the surrounding code where the change needs context. Judge correctness, design, tests and readability.\n\nAvailable tools: {ALLOWED_TOOLS}\n\nReport findings grouped by severity (critical, major, minor), each with the file and line, and conclude whether the change is ready to merge.\n";

/// The prompt of the pull-request comments agent.
pub const PR_COMMENTS_PROMPT: &'static str = "You fetch and analyze the review comments of a pull request.\n\nUse {TOOL:bash} to query the repository host's command-line client and {TOOL:web_fetch} for linked pages. Group the comments by file, say which are resolved, and list what still needs an answer or a change.\n\nAvailable tools: {ALLOWED_TOOLS}\n";

/// The prompt of the security review agent.
pub const SECURITY_REVIEW_PROMPT: &'static str = "You perform a security-focused review of the code in {PROJECT_PATH}.\n\nLook for injection, unsafe deserialization, path traversal, secrets in code, missing authentication or authorization checks, and unsafe handling of untrusted input. Search with {TOOL:grep} before reading files. Do not modify files.\n\nAvailable tools: {ALLOWED_TOOLS}\n\nReport each finding with its risk, location and a suggested fix.\n";

/// Flags that control agent behavior.
#[derive(Debug, Clone, Copy, PartialEq, Eq, Structural)]
pub struct AgentFlags {
    /// Agent cannot modify files.
    pub read_only: bool,
    /// Agent can run in background mode.
    pub can_background: bool,
    /// Agent has no tool access (text processing only).
    pub no_tools: bool,
}

impl Default for AgentFlags {
    fn default() -> (r: Self)
        ensures
            r == (AgentFlags { read_only: true, can_background: false, no_tools: false }),
    {
        AgentFlags { read_only: true, can_background: false, no_tools: false }
    }
}

/// Definition of an agent type.
#[derive(Debug, Clone)]
pub struct AgentType {
    /// Unique identifier.
    pub id: String,
    /// Human-readable name.
    pub name: String,
    /// Brief description.
    pub description: String,
    /// System prompt content.
    pub prompt: String,
    /// Allowed tool names.
    pub allowed_tools: Vec<String>,
    /// Behavioral flags.
    pub flags: AgentFlags,
}

/// Agent type metadata for display.
#[derive(Debug, Clone)]
pub struct AgentTypeInfo {
    pub id: String,
    pub name: String,
    pub description: String,
}

/// The value of an agent type.
pub struct AgentTypeView {
    pub id: Seq<char>,
    pub name: Seq<char>,
    pub description: Seq<char>,
    pub prompt: Seq<char>,
    pub allowed_tools: Seq<Seq<char>>,
    pub flags: AgentFlags,
}

/// The value of an agent type.
pub open spec fn agent_view(a: AgentType) -> AgentTypeView {
    AgentTypeView {
        id: a.id@,
        name: a.name@,
        description: a.description@,
        prompt: a.prompt@,
        allowed_tools: strings_view(a.allowed_tools@),
        flags: a.flags,
    }
}

/// The values of agent types.
pub open spec fn agents_view(v: Seq<AgentType>) -> Seq<AgentTypeView> {
    v.map_values(|a: AgentType| agent_view(a))
}

/// The value of an agent type's metadata: id, name, description.
pub open spec fn infos_view(v: Seq<AgentTypeInfo>) -> Seq<(Seq<char>, Seq<char>, Seq<char>)> {
    v.map_values(|i: AgentTypeInfo| (i.id@, i.name@, i.description@))
}

/// Flags of a read-only agent with tools.
pub open spec fn tool_flags(can_background: bool) -> AgentFlags {
    AgentFlags { read_only: true, can_background, no_tools: false }
}

/// Flags of a read-only agent without tools.
pub open spec fn text_only_flags() -> AgentFlags {
    AgentFlags { read_only: true, can_background: false, no_tools: true }
}

/// Fast read-only exploration.
pub open spec fn explore_agent() -> AgentTypeView {
    AgentTypeView {
        id: "explore"@,
        name: "Explore"@,
        description: "Fast codebase exploration, file search, read-only analysis"@,
        prompt: EXPLORE_PROMPT@,
        allowed_tools: seq![
            "read_file"@,
            "list_directory"@,
            "glob"@,
            "grep"@,
            "bash"@,
            "web_fetch"@,
            "search_web"@,
        ],
        flags: tool_flags(true),
    }
}

/// Implementation planning.
pub open spec fn plan_agent() -> AgentTypeView {
    AgentTypeView {
        id: "plan"@,
        name: "Plan"@,
        description: "Software architect for designing implementation plans"@,
        prompt: PLAN_PROMPT@,
        allowed_tools: seq![
            "read_file"@,
            "list_directory"@,
            "glob"@,
            "grep"@,
            "bash"@,
            "dispatch_agent"@,
        ],
        flags: tool_flags(false),
    }
}

/// Conversation summaries for compaction.
pub open spec fn summarize_agent() -> AgentTypeView {
    AgentTypeView {
        id: "summarize"@,
        name: "Summarize"@,
        description: "Conversation summarization for context compaction"@,
        prompt: SUMMARIZE_PROMPT@,
        allowed_tools: seq![],
        flags: text_only_flags(),
    }
}

/// Summaries of long command outputs.
pub open spec fn bash_summarize_agent() -> AgentTypeView {
    AgentTypeView {
        id: "bash-summarize"@,
        name: "Bash Summarize"@,
        description: "Summarize long bash command outputs"@,
        prompt: BASH_SUMMARIZE_PROMPT@,
        allowed_tools: seq![],
        flags: text_only_flags(),
    }
}

/// Session titles and branch names.
pub open spec fn session_title_agent() -> AgentTypeView {
    AgentTypeView {
        id: "session-title"@,
        name: "Session Title"@,
        description: "Generate session titles and branch names"@,
        prompt: SESSION_TITLE_PROMPT@,
        allowed_tools: seq![],
        flags: text_only_flags(),
    }
}

/// Pull request review.
pub open spec fn pr_review_agent() -> AgentTypeView {
    AgentTypeView {
        id: "pr-review"@,
        name: "PR Review"@,
        description: "Review pull requests"@,
        prompt: PR_REVIEW_PROMPT@,
        allowed_tools: seq!["read_file"@, "glob"@, "grep"@, "bash"@],
        flags: tool_flags(false),
    }
}

/// Pull request comments.
pub open spec fn pr_comments_agent() -> AgentTypeView {
    AgentTypeView {
        id: "pr-comments"@,
        name: "PR Comments"@,
        description: "Fetch and analyze PR comments"@,
        prompt: PR_COMMENTS_PROMPT@,
        allowed_tools: seq!["bash"@, "web_fetch"@],
        flags: tool_flags(false),
    }
}

/// Security-focused review.
pub open spec fn security_review_agent() -> AgentTypeView {
    AgentTypeView {
        id: "security-review"@,
        name: "Security Review"@,
        description: "Security-focused code review"@,
        prompt: SECURITY_REVIEW_PROMPT@,
        allowed_tools: seq!["read_file"@, "glob"@, "grep"@],
        flags: tool_flags(false),
    }
}

/// Every agent type, in registration order.
pub open spec fn registry() -> Seq<AgentTypeView> {
    seq![
        explore_agent(),
        plan_agent(),
        summarize_agent(),
        bash_summarize_agent(),
        session_title_agent(),
        pr_review_agent(),
        pr_comments_agent(),
        security_review_agent(),
    ]
}

/// The agent type registered under `id`.
pub open spec fn agent_with_id(id: Seq<char>) -> Option<AgentTypeView> {
    if id == "explore"@ {
        Some(explore_agent())
    } else if id == "plan"@ {
        Some(plan_agent())
    } else if id == "summarize"@ {
        Some(summarize_agent())
    } else if id == "bash-summarize"@ {
        Some(bash_summarize_agent())
    } else if id == "session-title"@ {
        Some(session_title_agent())
    } else if id == "pr-review"@ {
        Some(pr_review_agent())
    } else if id == "pr-comments"@ {
        Some(pr_comments_agent())
    } else if id == "security-review"@ {
        Some(security_review_agent())
    } else {
        None
    }
}

/// The ids of the registry are distinct.
pub proof fn lemma_registry_ids_distinct()
    ensures
        forall|i: int, j: int|
            0 <= i < j < registry().len() ==> (#[trigger] registry()[i]).id != (
            #[trigger] registry()[j]).id,
{
    reveal_strlit("explore");
    reveal_strlit("plan");
    reveal_strlit("summarize");
    reveal_strlit("bash-summarize");
    reveal_strlit("session-title");
    reveal_strlit("pr-review");
    reveal_strlit("pr-comments");
    reveal_strlit("security-review");
    assert forall|i: int, j: int| 0 <= i < j < registry().len() implies (
    #[trigger] registry()[i]).id != (#[trigger] registry()[j]).id by {
        let a = registry()[i].id;
        let b = registry()[j].id;
        if a.len() == b.len() {
            assert(a[0] != b[0] || a[1] != b[1] || a[3] != b[3]);
        }
    }
}

/// The agent registered under an id is the registry entry with that id.
pub proof fn law_agent_lookup_matches_registry(id: Seq<char>)
    ensures
        agent_with_id(id) matches Some(a) ==> exists|i: int|
            0 <= i < registry().len() && #[trigger] registry()[i] == a && a.id == id,
        agent_with_id(id) is None ==> forall|i: int|
            0 <= i < registry().len() ==> (#[trigger] registry()[i]).id != id,
{
    if let Some(a) = agent_with_id(id) {
        if id == "explore"@ {
            assert(registry()[0] == a);
        } else if id == "plan"@ {
            assert(registry()[1] == a);
        } else if id == "summarize"@ {
            assert(registry()[2] == a);
        } else if id == "bash-summarize"@ {
            assert(registry()[3] == a);
        } else if id == "session-title"@ {
            assert(registry()[4] == a);
        } else if id == "pr-review"@ {
            assert(registry()[5] == a);
        } else if id == "pr-comments"@ {
            assert(registry()[6] == a);
        } else {
            assert(registry()[7] == a);
        }
    }
}

fn names(v: &[&str]) -> (r: Vec<String>)
    ensures
        strings_view(r@) == str_views(v@),
{
    let mut r: Vec<String> = Vec::new();
    let mut i: usize = 0;
    while i < v.len()
        invariant
            i <= v@.len(),
            strings_view(r@) == str_views(v@).take(i as int),
        decreases v@.len() - i,
    {
        let ghost before = r@;
        r.push(owned(v[i]));
        assert(strings_view(r@) =~= strings_view(before).push(v@[i as int]@));
        assert(strings_view(r@) =~= str_views(v@).take(i + 1));
        i = i + 1;
    }
    assert(str_views(v@).take(v@.len() as int) =~= str_views(v@));
    r
}

fn agent(
    id: &str,
    name: &str,
    description: &str,
    prompt: &str,
    tools: &[&str],
    flags: AgentFlags,
) -> (r: AgentType)
    ensures
        agent_view(r) == (AgentTypeView {
            id: id@,
            name: name@,
            description: description@,
            prompt: prompt@,
            allowed_tools: str_views(tools@),
            flags,
        }),
{
    AgentType {
        id: owned(id),
        name: owned(name),
        description: owned(description),
        prompt: owned(prompt),
        allowed_tools: names(tools),
        flags,
    }
}

fn explore() -> (r: AgentType)
    ensures
        agent_view(r) == explore_agent(),
{
    let tools: [&str; 7] = [
        "read_file",
        "list_directory",
        "glob",
        "grep",
        "bash",
        "web_fetch",
        "search_web",
    ];
    let r = agent(
        "explore",
        "Explore",
        "Fast codebase exploration, file search, read-only analysis",
        EXPLORE_PROMPT,
        tools.as_slice(),
        AgentFlags { read_only: true, can_background: true, no_tools: false },
    );
    assert(agent_view(r).allowed_tools =~= explore_agent().allowed_tools);
    r
}

fn plan() -> (r: AgentType)
    ensures
        agent_view(r) == plan_agent(),
{
    let tools: [&str; 6] = ["read_file", "list_directory", "glob", "grep", "bash", "dispatch_agent"];
    let r = agent(
        "plan",
        "Plan",
        "Software architect for designing implementation plans",
        PLAN_PROMPT,
        tools.as_slice(),
        AgentFlags { read_only: true, can_background: false, no_tools: false },
    );
    assert(agent_view(r).allowed_tools =~= plan_agent().allowed_tools);
    r
}

fn text_only(id: &str, name: &str, description: &str, prompt: &str) -> (r: AgentType)
    ensures
        agent_view(r) == (AgentTypeView {
            id: id@,
            name: name@,
            description: description@,
            prompt: prompt@,
            allowed_tools: seq![],
            flags: text_only_flags(),
        }),
{
    let r = AgentType {
        id: owned(id),
        name: owned(name),
        description: owned(description),
        prompt: owned(prompt),
        allowed_tools: Vec::new(),
        flags: AgentFlags { read_only: true, can_background: false, no_tools: true },
    };
    assert(strings_view(r.allowed_tools@) =~= Seq::<Seq<char>>::empty());
    r
}

fn pr_review() -> (r: AgentType)
    ensures
        agent_view(r) == pr_review_agent(),
{
    let tools: [&str; 4] = ["read_file", "glob", "grep", "bash"];
    let r = agent(
        "pr-review",
        "PR Review",
        "Review pull requests",
        PR_REVIEW_PROMPT,
        tools.as_slice(),
        AgentFlags { read_only: true, can_background: false, no_tools: false },
    );
    assert(agent_view(r).allowed_tools =~= pr_review_agent().allowed_tools);
    r
}

fn pr_comments() -> (r: AgentType)
    ensures
        agent_view(r) == pr_comments_agent(),
{
    let tools: [&str; 2] = ["bash", "web_fetch"];
    let r = agent(
        "pr-comments",
        "PR Comments",
        "Fetch and analyze PR comments",
        PR_COMMENTS_PROMPT,
        tools.as_slice(),
        AgentFlags { read_only: true, can_background: false, no_tools: false },
    );
    assert(agent_view(r).allowed_tools =~= pr_comments_agent().allowed_tools);
    r
}

fn security_review() -> (r: AgentType)
    ensures
        agent_view(r) == security_review_agent(),
{
    let tools: [&str; 3] = ["read_file", "glob", "grep"];
    let r = agent(
        "security-review",
        "Security Review",
        "Security-focused code review",
        SECURITY_REVIEW_PROMPT,
        tools.as_slice(),
        AgentFlags { read_only: true, can_background: false, no_tools: false },
    );
    assert(agent_view(r).allowed_tools =~= security_review_agent().allowed_tools);
    r
}

/// Gets an agent type by id.
pub fn get_agent_type(id: &str) -> (r: Option<AgentType>)
    ensures
        match r {
            Some(a) => agent_with_id(id@) == Some(agent_view(a)),
            None => agent_with_id(id@) is None,
        },
{
    if str_eq(id, "explore") {
        Some(explore())
    } else if str_eq(id, "plan") {
        Some(plan())
    } else if str_eq(id, "summarize") {
        Some(
            text_only(
                "summarize",
                "Summarize",
                "Conversation summarization for context compaction",
                SUMMARIZE_PROMPT,
            ),
        )
    } else if str_eq(id, "bash-summarize") {
        Some(
            text_only(
                "bash-summarize",
                "Bash Summarize",
                "Summarize long bash command outputs",
                BASH_SUMMARIZE_PROMPT,
            ),
        )
    } else if str_eq(id, "session-title") {
        Some(
            text_only(
                "session-title",
                "Session Title",
                "Generate session titles and branch names",
                SESSION_TITLE_PROMPT,
            ),
        )
    } else if str_eq(id, "pr-review") {
        Some(pr_review())
    } else if str_eq(id, "pr-comments") {
        Some(pr_comments())
    } else if str_eq(id, "security-review") {
        Some(security_review())
    } else {
        None
    }
}

/// Gets the default agent type (explore).
pub fn get_default_agent_type() -> (r: AgentType)
    ensures
        agent_view(r) == explore_agent(),
{
    explore()
}

/// Gets every registered agent type, in registration order.
pub fn get_all_agent_types() -> (r: Vec<AgentType>)
    ensures
        agents_view(r@) == registry(),
{
    let mut r: Vec<AgentType> = Vec::new();
    r.push(explore());
    r.push(plan());
    r.push(
        text_only(
            "summarize",
            "Summarize",
            "Conversation summarization for context compaction",
            SUMMARIZE_PROMPT,
        ),
    );
    r.push(
        text_only(
            "bash-summarize",
            "Bash Summarize",
            "Summarize long bash command outputs",
            BASH_SUMMARIZE_PROMPT,
        ),
    );
    r.push(
        text_only(
            "session-title",
            "Session Title",
            "Generate session titles and branch names",
            SESSION_TITLE_PROMPT,
        ),
    );
    r.push(pr_review());
    r.push(pr_comments());
    r.push(security_review());
    assert(agents_view(r@) =~= registry());
    r
}

/// The list of agent types for prompts: one line `` - `id`: description `` each.
pub open spec fn types_description(agents: Seq<AgentTypeView>) -> Seq<char>
    decreases agents.len(),
{
    if agents.len() == 0 {
        seq![]
    } else {
        types_description(agents.drop_last()) + "- `"@ + agents.last().id + "`: "@
            + agents.last().description + "\n"@
    }
}

/// A formatted list of agent types for use in prompts.
pub fn get_agent_types_description() -> (r: String)
    ensures
        r@ == types_description(registry()),
{
    let agents = get_all_agent_types();
    let ghost av = agents_view(agents@);
    let mut desc: Vec<char> = Vec::new();
    let mut i: usize = 0;
    while i < agents.len()
        invariant
            i <= agents@.len(),
            av == agents_view(agents@),
            av == registry(),
            desc@ == types_description(av.take(i as int)),
        decreases agents@.len() - i,
    {
        assert(av.take(i + 1).drop_last() =~= av.take(i as int));
        push_str(&mut desc, "- `");
        push_str(&mut desc, agents[i].id.as_str());
        push_str(&mut desc, "`: ");
        push_str(&mut desc, agents[i].description.as_str());
        push_str(&mut desc, "\n");
        assert(desc@ =~= types_description(av.take(i + 1)));
        i = i + 1;
    }
    assert(av.take(agents@.len() as int) =~= av);
    string_of(desc.as_slice())
}

/// The prompt of every agent type under its id, in registration order.
pub fn get_agent_prompts() -> (r: TextMap)
    ensures
        distinct_keys(r.pairs()),
        r.pairs() == registry().map_values(|a: AgentTypeView| (a.id, a.prompt)),
{
    let agents = get_all_agent_types();
    let ghost av = agents_view(agents@);
    let ghost want = registry().map_values(|a: AgentTypeView| (a.id, a.prompt));
    proof {
        lemma_registry_ids_distinct();
    }
    let mut m = TextMap::new();
    let mut i: usize = 0;
    while i < agents.len()
        invariant
            i <= agents@.len(),
            av == agents_view(agents@),
            av == registry(),
            want == registry().map_values(|a: AgentTypeView| (a.id, a.prompt)),
            forall|p: int, q: int|
                0 <= p < q < registry().len() ==> (#[trigger] registry()[p]).id != (
                #[trigger] registry()[q]).id,
            distinct_keys(m.pairs()),
            m.pairs() == want.take(i as int),
        decreases agents@.len() - i,
    {
        let ghost before = m.pairs();
        proof {
            assert forall|j: int| 0 <= j < before.len() implies (#[trigger] before[j]).0
                != av[i as int].id by {
                assert(before[j] == want[j]);
                assert(registry()[j].id != registry()[i as int].id);
            }
        }
        m.insert(owned(agents[i].id.as_str()), owned(agents[i].prompt.as_str()));
        assert(m.pairs() =~= want.take(i + 1));
        i = i + 1;
    }
    assert(want.take(agents@.len() as int) =~= want);
    m
}

/// Every agent type's metadata, in registration order.
pub fn get_agent_type_infos() -> (r: Vec<AgentTypeInfo>)
    ensures
        infos_view(r@) == registry().map_values(
            |a: AgentTypeView| (a.id, a.name, a.description),
        ),
{
    let agents = get_all_agent_types();
    let ghost av = agents_view(agents@);
    let ghost want = registry().map_values(|a: AgentTypeView| (a.id, a.name, a.description));
    let mut r: Vec<AgentTypeInfo> = Vec::new();
    let mut i: usize = 0;
    while i < agents.len()
        invariant
            i <= agents@.len(),
            av == agents_view(agents@),
            av == registry(),
            want == registry().map_values(|a: AgentTypeView| (a.id, a.name, a.description)),
            infos_view(r@) == want.take(i as int),
        decreases agents@.len() - i,
    {
        let a = &agents[i];
        let ghost before = r@;
        r.push(
            AgentTypeInfo {
                id: owned(a.id.as_str()),
                name: owned(a.name.as_str()),
                description: owned(a.description.as_str()),
            },
        );
        assert(infos_view(r@) =~= infos_view(before).push(want[i as int]));
        assert(infos_view(r@) =~= want.take(i + 1));
        i = i + 1;
    }
    assert(want.take(agents@.len() as int) =~= want);
    r
}

/// The pattern of tool references, `{TOOL:name}`.
pub const TOOL_PATTERN: &'static str = "\\{TOOL:(\\w+)\\}";

/// The pattern of agent references, `{AGENT:id}`.
pub const AGENT_PATTERN: &'static str = "\\{AGENT:(\\w+)\\}";

/// `text` with every match of `pattern` replaced by its first group (unchanged when
/// the pattern does not compile).
pub open spec fn unwrap_references(pattern: Seq<char>, text: Seq<char>) -> Seq<char> {
    match regex_replace_with_group(pattern, text) {
        Some(s) => s,
        None => text,
    }
}

/// What interpolating a prompt gives: `{ALLOWED_TOOLS}` becomes the tools joined by
/// `, `, `{PROJECT_PATH}` the path (when one is given), `{CURRENT_DATE}` the date,
/// and each `{TOOL:name}` and `{AGENT:id}` its name.
pub open spec fn interpolated(
    prompt: Seq<char>,
    tools: Seq<Seq<char>>,
    project_path: Option<Seq<char>>,
    date: Seq<char>,
) -> Seq<char> {
    let with_tools = replace_all(prompt, "{ALLOWED_TOOLS}"@, join(tools, ", "@));
    let with_path = match project_path {
        Some(p) => replace_all(with_tools, "{PROJECT_PATH}"@, p),
        None => with_tools,
    };
    let with_date = replace_all(with_path, "{CURRENT_DATE}"@, date);
    unwrap_references(AGENT_PATTERN@, unwrap_references(TOOL_PATTERN@, with_date))
}

fn unwrap_references_exec(pattern: &str, text: String) -> (r: String)
    ensures
        r@ == unwrap_references(pattern@, text@),
{
    match regex_replace_group(pattern, text.as_str()) {
        Some(s) => s,
        None => text,
    }
}

/// Replaces `{ALLOWED_TOOLS}`, `{PROJECT_PATH}`, `{CURRENT_DATE}` (by `date`),
/// `{TOOL:name}` and `{AGENT:id}` in a prompt.
pub fn interpolate_prompt_on(
    prompt: &str,
    allowed_tools: &[&str],
    project_path: Option<&str>,
    date: &str,
) -> (r: String)
    ensures
        r@ == interpolated(
            prompt@,
            str_views(allowed_tools@),
            opt_str_view(project_path),
            date@,
        ),
{
    let tools = names(allowed_tools);
    let mut parts: Vec<Vec<char>> = Vec::new();
    let mut i: usize = 0;
    while i < tools.len()
        invariant
            i <= tools@.len(),
            crate::text::vecs_view(parts@) == strings_view(tools@).take(i as int),
        decreases tools@.len() - i,
    {
        let ghost before = parts@;
        parts.push(chars_of(tools[i].as_str()));
        assert(crate::text::vecs_view(parts@) =~= crate::text::vecs_view(before).push(
            tools@[i as int]@,
        ));
        assert(strings_view(tools@).take(i + 1) =~= strings_view(tools@).take(i as int).push(
            tools@[i as int]@,
        ));
        i = i + 1;
    }
    assert(strings_view(tools@).take(tools@.len() as int) =~= strings_view(tools@));
    let sep = chars_of(", ");
    let joined = join_exec(&parts, sep.as_slice());
    let text = chars_of(prompt);
    proof {
        reveal_strlit("{ALLOWED_TOOLS}");
        reveal_strlit("{PROJECT_PATH}");
        reveal_strlit("{CURRENT_DATE}");
    }
    let with_tools = replace_str(text.as_slice(), "{ALLOWED_TOOLS}", joined.as_slice());
    let with_path = match project_path {
        Some(p) => {
            let pv = chars_of(p);
            replace_str(with_tools.as_slice(), "{PROJECT_PATH}", pv.as_slice())
        },
        None => with_tools,
    };
    let dv = chars_of(date);
    let with_date = replace_str(with_path.as_slice(), "{CURRENT_DATE}", dv.as_slice());
    let s = string_of(with_date.as_slice());
    let s = unwrap_references_exec(TOOL_PATTERN, s);
    unwrap_references_exec(AGENT_PATTERN, s)
}

/// Replaces `{ALLOWED_TOOLS}`, `{PROJECT_PATH}`, `{CURRENT_DATE}` (today, in UTC),
/// `{TOOL:name}` and `{AGENT:id}` in a prompt.
pub fn interpolate_prompt(prompt: &str, allowed_tools: &[&str], project_path: Option<&str>) -> (r:
    String)
    ensures
        exists|date: Seq<char>|
            is_date_text(date) && r@ == #[trigger] interpolated(
                prompt@,
                str_views(allowed_tools@),
                opt_str_view(project_path),
                date,
            ),
{
    let date = today_utc();
    interpolate_prompt_on(prompt, allowed_tools, project_path, date.as_str())
}

/// Formats a system reminder for injection: the trimmed content between
/// `<system-reminder>` tags, each on its own line.
pub fn format_system_reminder(content: &str) -> (r: String)
    ensures
        r@ == "<system-reminder>\n"@ + trim(content@) + "\n</system-reminder>"@,
{
    let mut out = chars_of("<system-reminder>\n");
    let cv = chars_of(content);
    let t = trim_exec(cv.as_slice());
    push_all(&mut out, t.as_slice());
    push_str(&mut out, "\n</system-reminder>");
    string_of(out.as_slice())
}

} // verus!
