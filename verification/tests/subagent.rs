use devflow::agent::error::AgentError;
use devflow::agent::prompts::{get_agent_type, get_default_agent_type};
use devflow::agent::tools::subagent::{
    build_agent_system_prompt_on, check_subagent_start, filter_tools, select_agent_type,
    subagent_tools, DEFAULT_SUBAGENT_TOOLS,
};
use devflow::text_map::TextMap;

#[test]
fn test_get_agent_type_explore() {
    let agent = get_agent_type("explore");
    assert!(agent.is_some());
    assert_eq!(agent.unwrap().id, "explore");
}

#[test]
fn test_get_agent_type_fallback() {
    let agent = get_agent_type("nonexistent");
    assert!(agent.is_none());
}

#[test]
fn test_default_agent_type() {
    let agent = get_default_agent_type();
    assert_eq!(agent.id, "explore");
}

#[test]
fn subagent_test_all_agent_types_exist() {
    // Verify all documented agent types are available
    let expected_types = [
        "explore",
        "plan",
        "summarize",
        "bash-summarize",
        "session-title",
        "pr-review",
        "pr-comments",
        "security-review",
    ];

    for agent_id in expected_types {
        let agent = get_agent_type(agent_id);
        assert!(agent.is_some(), "Agent type '{}' should exist", agent_id);
    }
}

#[test]
fn test_agent_types_have_allowed_tools() {
    // Each agent type should have a defined set of allowed tools
    let agent_types = ["explore", "plan", "summarize", "pr-review"];

    for agent_id in agent_types {
        let agent = get_agent_type(agent_id).unwrap();
        // Either has tools or has no_tools flag
        assert!(
            !agent.allowed_tools.is_empty() || agent.flags.no_tools,
            "Agent '{}' should have allowed_tools or no_tools flag",
            agent_id
        );
    }
}

#[test]
fn test_filter_tools_respects_agent_type() {
    let explore = get_agent_type("explore").unwrap();
    let tools = filter_tools(None, &explore).unwrap();

    // Explore should have search tools
    let tool_names: Vec<&str> = tools.iter().map(|t| t.name.as_str()).collect();
    assert!(
        tool_names.contains(&"glob") || tool_names.contains(&"grep"),
        "Explore agent should have search tools"
    );
}

#[test]
fn test_filter_tools_explicit_override() {
    let explore = get_agent_type("explore").unwrap();
    let allowed = Some(vec!["read_file".to_string()]);
    let tools = filter_tools(allowed, &explore).unwrap();

    assert_eq!(tools.len(), 1);
    assert_eq!(tools[0].name, "read_file");
}

#[test]
fn test_no_tools_agent_returns_empty() {
    // session-title should have no_tools flag
    let session_title = get_agent_type("session-title").unwrap();
    assert!(session_title.flags.no_tools);

    // When no_tools is set, the sub-agent gets no tools
    if session_title.flags.no_tools {
        let tools = subagent_tools(None, &session_title).unwrap();
        assert!(tools.is_empty());
    }
}

#[test]
fn test_default_subagent_tools() {
    // Verify DEFAULT_SUBAGENT_TOOLS contains expected tools
    assert!(DEFAULT_SUBAGENT_TOOLS.contains(&"read_file"));
    assert!(DEFAULT_SUBAGENT_TOOLS.contains(&"glob"));
    assert!(DEFAULT_SUBAGENT_TOOLS.contains(&"grep"));

    // Should NOT include dangerous tools
    assert!(!DEFAULT_SUBAGENT_TOOLS.contains(&"bash"));
    assert!(!DEFAULT_SUBAGENT_TOOLS.contains(&"write_file"));
}

#[test]
fn depth_limit_is_enforced() {
    match check_subagent_start(false, 3, 3) {
        Err(e) => assert!(
            e.message().contains("Maximum sub-agent depth"),
            "Error should mention depth limit: {}",
            e.message()
        ),
        Ok(()) => panic!("depth limit not enforced"),
    }
    assert!(check_subagent_start(false, 2, 3).is_ok());
}

#[test]
fn cancelled_run_does_not_start_subagent() {
    assert!(matches!(
        check_subagent_start(true, 0, 3),
        Err(AgentError::Cancelled)
    ));
}

#[test]
fn unknown_tools_only_is_an_error() {
    let explore = get_agent_type("explore").unwrap();
    match filter_tools(Some(vec!["no_such_tool".to_string()]), &explore) {
        Err(AgentError::ToolExecutionError(m)) => {
            assert_eq!(m, "No valid tools available for sub-agent")
        }
        other => panic!("unexpected {:?}", other.map(|v| v.len())),
    }
    match subagent_tools(Some(vec!["no_such_tool".to_string()]), &explore) {
        Err(AgentError::ToolExecutionError(m)) => assert_eq!(
            m,
            "'explore' agent tool setup failed: Tool execution error: No valid tools available for sub-agent"
        ),
        other => panic!("unexpected {:?}", other.map(|v| v.len())),
    }
}

#[test]
fn select_agent_type_falls_back_to_explore() {
    assert_eq!(select_agent_type(Some("plan")).id, "plan");
    assert_eq!(select_agent_type(Some("nope")).id, "explore");
    assert_eq!(select_agent_type(None).id, "explore");
}

#[test]
fn agent_system_prompt_uses_custom_prompt() {
    let explore = get_agent_type("explore").unwrap();
    let tools = filter_tools(Some(vec!["glob".to_string(), "grep".to_string()]), &explore).unwrap();
    let mut custom = TextMap::new();
    custom.insert(
        "explore".to_string(),
        "Tools: {ALLOWED_TOOLS} in {PROJECT_PATH} on {CURRENT_DATE}".to_string(),
    );
    let prompt = build_agent_system_prompt_on(&explore, &tools, "/proj", Some(&custom), "2025-01-02");
    assert_eq!(prompt, "Tools: glob, grep in /proj on 2025-01-02");
}
