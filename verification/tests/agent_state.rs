use devflow::agent::state::AgentState;

/// The adapter stands for a provider adapter: its name.
type State = AgentState<String>;

#[test]
fn test_new_state_needs_reload() {
    let state = State::new();
    assert!(state.needs_reload("/some/path"));
}

#[test]
fn test_needs_reload_when_stale() {
    let mut state = State::new();
    state.project_path = Some("/some/path".to_string());
    state.config_stale = true;
    // Even with matching path, stale flag triggers reload
    assert!(state.needs_reload("/some/path"));
}

#[test]
fn test_needs_reload_when_path_differs() {
    let mut state = State::new();
    state.project_path = Some("/some/path".to_string());
    state.config_stale = false;
    assert!(state.needs_reload("/different/path"));
}

#[test]
fn test_mark_config_stale() {
    let mut state = State::new();
    assert!(!state.config_stale);
    state.mark_config_stale();
    assert!(state.config_stale);
}

#[test]
fn test_clear_resets_stale() {
    let mut state = State::new();
    state.config_stale = true;
    state.project_path = Some("/path".to_string());
    state.clear();
    assert!(!state.config_stale);
    assert!(state.project_path.is_none());
}

#[test]
fn test_default_state_is_not_running() {
    let state = State::new();
    assert!(!state.is_running);
}

#[test]
fn test_start_run_sets_is_running() {
    let mut state = State::new();
    assert!(!state.is_running);

    let _token = state.start_run();
    assert!(state.is_running);
}

#[test]
fn test_start_run_returns_cancel_token() {
    let mut state = State::new();
    let token = state.start_run();
    assert!(!state.is_cancelled(token));
    assert_eq!(state.cancel_token, Some(token));
}

#[test]
fn test_finish_run_clears_running_state() {
    let mut state = State::new();
    let _token = state.start_run();
    assert!(state.is_running);

    state.finish_run();
    assert!(!state.is_running);
}

#[test]
fn test_finish_run_clears_cancel_token() {
    let mut state = State::new();
    let _token = state.start_run();
    assert!(state.cancel_token.is_some());

    state.finish_run();
    assert!(state.cancel_token.is_none());
}

#[test]
fn test_cancel_sets_is_running_false() {
    let mut state = State::new();
    let _token = state.start_run();
    assert!(state.is_running);

    state.cancel();
    assert!(!state.is_running);
}

#[test]
fn test_cancel_triggers_cancellation_token() {
    let mut state = State::new();
    let token = state.start_run();
    assert!(!state.is_cancelled(token));

    state.cancel();
    assert!(state.is_cancelled(token));
}

#[test]
fn test_cancel_when_not_running_is_safe() {
    let mut state = State::new();
    assert!(!state.is_running);
    state.cancel();
    assert!(!state.is_running);
    assert!(state.cancelled.is_empty());
}

#[test]
fn test_get_adapter_returns_none_when_not_initialized() {
    let state = State::new();
    assert!(state.get_adapter().is_none());
}

#[test]
fn test_clear_removes_adapter() {
    let mut state = State::new();
    state.project_path = Some("/path".to_string());
    state.clear();
    assert!(state.adapter.is_none());
}

#[test]
fn test_clear_cancels_any_running_operation() {
    let mut state = State::new();
    let token = state.start_run();
    assert!(state.is_running);

    state.clear();

    assert!(!state.is_running);
    assert!(state.is_cancelled(token));
}

#[test]
fn test_default_trait_creates_new_state() {
    let state = State::default();
    assert!(!state.is_running);
    assert!(state.adapter.is_none());
    assert!(state.project_path.is_none());
}

#[test]
fn test_multiple_start_run_calls_create_new_tokens() {
    let mut state = State::new();

    let token1 = state.start_run();
    state.finish_run();

    let token2 = state.start_run();
    assert!(!state.is_cancelled(token1));
    assert!(!state.is_cancelled(token2));

    state.cancel();
    assert!(!state.is_cancelled(token1));
    assert!(state.is_cancelled(token2));
}

#[test]
fn initialized_state_needs_no_reload_until_stale() {
    let mut state = State::new();
    state.initialize("anthropic".to_string(), "/p");
    assert!(!state.needs_reload("/p"));
    assert!(state.needs_reload("/q"));
    assert_eq!(state.get_adapter().map(|a| a.as_str()), Some("anthropic"));
    state.mark_config_stale();
    assert!(state.needs_reload("/p"));
}

#[test]
fn cancelling_twice_cancels_the_live_run_once() {
    let mut state = State::new();
    let token = state.start_run();
    state.cancel();
    state.cancel();
    assert_eq!(state.cancelled, vec![token]);
    assert_eq!(state.cancel_token, None);
}
