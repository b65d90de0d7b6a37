use devflow::agent::prompts::{
    format_system_reminder, get_agent_prompts, get_agent_type, get_agent_type_infos,
    get_agent_types_description, get_all_agent_types, get_default_agent_type, interpolate_prompt,
    interpolate_prompt_on,
};

#[test]
fn test_get_agent_type() {
    assert!(get_agent_type("explore").is_some());
    assert!(get_agent_type("plan").is_some());
    assert!(get_agent_type("summarize").is_some());
    assert!(get_agent_type("nonexistent").is_none());
}

#[test]
fn mod_test_all_agent_types_exist() {
    let expected = [
        "explore",
        "plan",
        "summarize",
        "bash-summarize",
        "session-title",
        "pr-review",
        "pr-comments",
        "security-review",
    ];
    for id in expected {
        assert!(get_agent_type(id).is_some(), "Agent '{}' should exist", id);
    }
}

#[test]
fn test_default_agent() {
    let agent = get_default_agent_type();
    assert_eq!(agent.id, "explore");
}

#[test]
fn test_get_all_agent_types() {
    let agents = get_all_agent_types();
    assert!(!agents.is_empty());
    assert!(agents.len() >= 8);
}

#[test]
fn test_get_agent_prompts() {
    let prompts = get_agent_prompts();
    assert!(prompts.contains_key("explore"));
    assert!(prompts.contains_key("plan"));
    assert!(!prompts.get("explore").unwrap().is_empty());
}

#[test]
fn test_get_agent_type_infos() {
    let infos = get_agent_type_infos();
    assert!(!infos.is_empty());
    let explore_info = infos.iter().find(|i| i.id == "explore");
    assert!(explore_info.is_some());
    assert_eq!(explore_info.unwrap().name, "Explore");
}

#[test]
fn test_interpolate_prompt() {
    let prompt = "Tools: {ALLOWED_TOOLS}, Date: {CURRENT_DATE}";
    let result = interpolate_prompt(prompt, &["read_file", "glob"], None);
    assert!(result.contains("read_file, glob"));
    assert!(result.contains("202")); // Year prefix
}

#[test]
fn test_interpolate_prompt_with_project_path() {
    let prompt = "Path: {PROJECT_PATH}";
    let result = interpolate_prompt(prompt, &[], Some("/test/project"));
    assert!(result.contains("/test/project"));
}

#[test]
fn test_interpolate_prompt_tool_pattern() {
    let prompt = "Use {TOOL:read_file} to read files";
    let result = interpolate_prompt(prompt, &[], None);
    assert!(result.contains("read_file"));
    assert!(!result.contains("{TOOL:"));
}

#[test]
fn test_interpolate_prompt_agent_pattern() {
    let prompt = "Dispatch {AGENT:explore} agent";
    let result = interpolate_prompt(prompt, &[], None);
    assert!(result.contains("explore"));
    assert!(!result.contains("{AGENT:"));
}

#[test]
fn test_format_system_reminder() {
    let reminder = format_system_reminder("Test reminder");
    assert!(reminder.starts_with("<system-reminder>"));
    assert!(reminder.ends_with("</system-reminder>"));
    assert!(reminder.contains("Test reminder"));
}

#[test]
fn test_agent_flags() {
    let explore = get_agent_type("explore").unwrap();
    assert!(explore.flags.read_only);
    assert!(explore.flags.can_background);
    assert!(!explore.flags.no_tools);

    let summarize = get_agent_type("summarize").unwrap();
    assert!(summarize.flags.no_tools);
}

#[test]
fn test_get_agent_types_description() {
    let desc = get_agent_types_description();
    assert!(desc.contains("explore"));
    assert!(desc.contains("plan"));
}

#[test]
fn interpolate_prompt_on_fills_every_placeholder_exactly() {
    let result = interpolate_prompt_on(
        "Tools: {ALLOWED_TOOLS}; Date: {CURRENT_DATE}; Path: {PROJECT_PATH}; {TOOL:glob} {AGENT:plan}",
        &["read_file", "glob"],
        Some("/p"),
        "2024-05-06",
    );
    assert_eq!(result, "Tools: read_file, glob; Date: 2024-05-06; Path: /p; glob plan");
}

#[test]
fn interpolate_prompt_on_without_project_path_keeps_placeholder() {
    let result = interpolate_prompt_on("Path: {PROJECT_PATH}", &[], None, "2024-01-01");
    assert_eq!(result, "Path: {PROJECT_PATH}");
}

#[test]
fn format_system_reminder_trims_content() {
    assert_eq!(
        format_system_reminder("  hi \n"),
        "<system-reminder>\nhi\n</system-reminder>"
    );
}

#[test]
fn agent_lookup_matches_listing() {
    for agent in get_all_agent_types() {
        let found = get_agent_type(&agent.id).unwrap();
        assert_eq!(found.name, agent.name);
        assert_eq!(found.prompt, agent.prompt);
    }
    assert_eq!(get_agent_type_infos().len(), get_all_agent_types().len());
}
