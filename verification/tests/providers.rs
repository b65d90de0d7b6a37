use devflow::agent::error::AgentError;
use devflow::agent::headless::{
    check_cancelled, counts_usage, next_step, tool_for_call, tool_result, HeadlessRun, HeadlessStep,
    ToolCall,
};
use devflow::agent::tools::types::ToolName;
use devflow::agent::providers::{LoopStep, ToolLoop};
use devflow::agent::providers::{
    build_system_prompt, check_iteration_limit, select_provider, ProviderKind, StreamingState,
    DEFAULT_SYSTEM_PROMPT,
};
use devflow::agent::usage::TokenUsage;
use devflow::config::types::PromptsConfig;

#[test]
fn test_build_system_prompt_includes_app_prompt() {
    let prompts = PromptsConfig::default();
    let result = build_system_prompt("App prompt", &prompts, None, None);
    assert_eq!(result, "App prompt");
}

#[test]
fn test_build_system_prompt_combination_order() {
    let prompts = PromptsConfig {
        pre: "Pre prompt".to_string(),
        post: "Post prompt".to_string(),
    };
    let result = build_system_prompt(
        "App prompt",
        &prompts,
        Some("Custom prompt".to_string()),
        None,
    );
    assert_eq!(
        result,
        "App prompt\n\nPre prompt\n\nCustom prompt\n\nPost prompt"
    );
}

#[test]
fn test_build_system_prompt_with_memory() {
    let prompts = PromptsConfig {
        pre: "Pre prompt".to_string(),
        post: "Post prompt".to_string(),
    };
    let memory = "<project-memory source=\"AGENTS.md\">\nTest memory\n</project-memory>";
    let result = build_system_prompt("App prompt", &prompts, None, Some(memory));
    assert_eq!(
        result,
        "App prompt\n\n<project-memory source=\"AGENTS.md\">\nTest memory\n</project-memory>\n\nPre prompt\n\nPost prompt"
    );
}

#[test]
fn test_build_system_prompt_skips_empty_parts() {
    let prompts = PromptsConfig {
        pre: "".to_string(),
        post: "Post prompt".to_string(),
    };
    let result = build_system_prompt("App prompt", &prompts, None, None);
    assert_eq!(result, "App prompt\n\nPost prompt");
}

#[test]
fn test_build_system_prompt_joins_with_double_newline() {
    let prompts = PromptsConfig {
        pre: "Pre".to_string(),
        post: "".to_string(),
    };
    let result = build_system_prompt("App", &prompts, None, None);
    assert!(result.contains("\n\n"));
    assert_eq!(result, "App\n\nPre");
}

#[test]
fn test_default_system_prompt_is_not_empty() {
    assert!(!DEFAULT_SYSTEM_PROMPT.is_empty());
    assert!(DEFAULT_SYSTEM_PROMPT.len() > 50); // Should have meaningful content
}

#[test]
fn test_streaming_state_starts_at_zero() {
    let state = StreamingState::new();
    assert_eq!(state.current_offset(), 0);
}

#[test]
fn test_streaming_state_advances_correctly() {
    let mut state = StreamingState::new();

    // First response: 3 blocks
    assert_eq!(state.current_offset(), 0);
    state.advance(3);

    // Second response: 2 blocks
    assert_eq!(state.current_offset(), 3);
    state.advance(2);

    // Third response: 1 block
    assert_eq!(state.current_offset(), 5);
    state.advance(1);
    assert_eq!(state.current_offset(), 6);
}

#[test]
fn test_streaming_state_handles_empty_responses() {
    let mut state = StreamingState::new();

    state.advance(0);
    assert_eq!(state.current_offset(), 0);

    state.advance(2);
    state.advance(0);
    assert_eq!(state.current_offset(), 2);
}

#[test]
fn test_streaming_state_simulates_tool_loop() {
    let mut state = StreamingState::new();

    // Turn 1: text (0), tool (1)
    assert_eq!(state.current_offset(), 0);
    state.advance(2);

    // Turn 2: text (2), tool (3)
    assert_eq!(state.current_offset(), 2);
    state.advance(2);

    // Turn 3: final text (4)
    assert_eq!(state.current_offset(), 4);
    state.advance(1);

    assert_eq!(state.current_offset(), 5);
}

#[test]
fn build_system_prompt_custom_after_memory() {
    let prompts = PromptsConfig {
        pre: "".to_string(),
        post: "".to_string(),
    };
    let result = build_system_prompt("A", &prompts, Some("C".to_string()), Some("M"));
    assert_eq!(result, "A\n\nM\n\nC");
}

#[test]
fn check_iteration_limit_fails_at_the_limit() {
    assert!(check_iteration_limit(9, 10).is_ok());
    match check_iteration_limit(10, 10) {
        Err(AgentError::ToolExecutionError(m)) => {
            assert_eq!(m, "Exceeded maximum tool iterations (10)")
        }
        other => panic!("unexpected {:?}", other),
    }
}

#[test]
fn select_provider_is_case_insensitive() {
    assert_eq!(select_provider("Anthropic").unwrap(), ProviderKind::Anthropic);
    assert_eq!(select_provider("GEMINI").unwrap(), ProviderKind::Gemini);
    match select_provider("OpenAI") {
        Err(AgentError::UnsupportedProvider(p)) => assert_eq!(p, "openai"),
        other => panic!("unexpected {:?}", other),
    }
}

#[test]
fn headless_next_step_decides() {
    assert_eq!(
        next_step(3, 5, false).unwrap(),
        HeadlessStep::Finish { tool_calls_made: 3 }
    );
    assert_eq!(
        next_step(3, 5, true).unwrap(),
        HeadlessStep::RunTools { iteration: 4 }
    );
    match next_step(5, 5, true) {
        Err(AgentError::ToolExecutionError(m)) => {
            assert_eq!(m, "Exceeded maximum tool iterations (5)")
        }
        other => panic!("unexpected {:?}", other),
    }
    assert!(!counts_usage(TokenUsage { input_tokens: 0, output_tokens: 0 }));
    assert!(counts_usage(TokenUsage { input_tokens: 0, output_tokens: 1 }));
}

#[test]
fn headless_run_gathers_text_until_a_turn_without_tools() {
    let mut run = HeadlessRun::new(2);
    assert!(check_cancelled(false).is_ok());
    assert!(matches!(check_cancelled(true), Err(AgentError::Cancelled)));
    assert!(run.on_turn("Looking. ", true, Some("tool_use".to_string())).unwrap().is_none());
    assert!(run.on_turn("Still. ", true, Some("tool_use".to_string())).unwrap().is_none());
    let done = run.on_turn("Done.", false, Some("end_turn".to_string())).unwrap().unwrap();
    assert_eq!(done.stop_reason, Some("end_turn".to_string()));
    assert_eq!(done.text, "Looking. Still. Done.");
    assert_eq!(done.tool_calls_made, 2);
}

#[test]
fn headless_run_fails_past_its_limit() {
    let mut run = HeadlessRun::new(1);
    assert!(run.on_turn("", true, None).unwrap().is_none());
    match run.on_turn("", true, None) {
        Err(AgentError::ToolExecutionError(m)) => {
            assert_eq!(m, "Exceeded maximum tool iterations (1)")
        }
        other => panic!("unexpected {:?}", other),
    }
}

#[test]
fn headless_tool_calls_resolve_and_report() {
    let call = ToolCall { id: "t1".to_string(), name: "read_file".to_string(), input: "{}".to_string() };
    assert_eq!(tool_for_call(&call).unwrap(), ToolName::ReadFile);
    let bad = ToolCall { id: "t2".to_string(), name: "fly".to_string(), input: "{}".to_string() };
    match tool_for_call(&bad) {
        Err(AgentError::UnknownTool(n)) => assert_eq!(n, "fly"),
        other => panic!("unexpected {:?}", other),
    }
    let ok = tool_result(&call, Ok("contents".to_string()));
    assert_eq!((ok.id.as_str(), ok.name.as_str(), ok.output.as_str(), ok.is_error), ("t1", "read_file", "contents", false));
    let err = tool_result(&call, Err(AgentError::ToolTimeout));
    assert_eq!(err.output, "Tool execution timed out");
    assert!(err.is_error);
}

#[test]
fn test_stop_reason_max_tokens() {
    let mut run = HeadlessRun::new(10);
    let done = run.on_turn("Partial", false, Some("max_tokens".to_string())).unwrap().unwrap();
    assert_eq!(done.stop_reason, Some("max_tokens".to_string()));
    assert_eq!(done.tool_calls_made, 0);
}

#[test]
fn test_stop_reason_after_tool_calls() {
    let mut run = HeadlessRun::new(10);
    assert!(run.on_turn("", true, Some("tool_use".to_string())).unwrap().is_none());
    let done = run.on_turn("Here are the files", false, Some("end_turn".to_string())).unwrap().unwrap();
    assert_eq!(done.text, "Here are the files");
    assert_eq!(done.tool_calls_made, 1);
    assert_eq!(done.stop_reason, Some("end_turn".to_string()));
}

#[test]
fn tool_loop_numbers_blocks_and_stops_at_the_limit() {
    let mut lp = ToolLoop::new(2);
    assert_eq!(lp.block_offset(), 0);
    assert!(matches!(lp.on_response(3, true, Some("tool_use".to_string())), Ok(LoopStep::RunTools)));
    assert_eq!(lp.block_offset(), 3);
    match lp.on_response(1, true, None) {
        Err(AgentError::ToolExecutionError(m)) => assert_eq!(m, "Exceeded maximum tool iterations (2)"),
        other => panic!("unexpected {:?}", other),
    }
    let mut done = ToolLoop::new(2);
    match done.on_response(2, false, Some("end_turn".to_string())) {
        Ok(LoopStep::Finish(r)) => assert_eq!(r, Some("end_turn".to_string())),
        other => panic!("unexpected {:?}", other),
    }
    assert_eq!(done.block_offset(), 2);
}
