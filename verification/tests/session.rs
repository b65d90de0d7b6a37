use devflow::agent::tools::calls::PlanApproval;
use devflow::agent::tools::session::SessionState;
use devflow::agent::tools::types::TodoItem;

#[test]
fn test_session_state_todos() {
    let mut state = SessionState::new();
    assert!(state.get_todos().is_empty());

    let todos = vec![TodoItem {
        id: "1".to_string(),
        content: "Test".to_string(),
        status: "pending".to_string(),
        priority: "high".to_string(),
    }];

    state.set_todos(todos);
    assert_eq!(state.todos_count(), 1);
}

#[test]
fn test_plan_approval() {
    let mut state = SessionState::new();

    state.set_plan("Test plan".to_string());
    assert!(state.has_pending_plan());
    assert_eq!(state.get_plan(), Some("Test plan".to_string()));

    // The waiter takes the receiver before the answer comes.
    let rx = state.wait_for_plan_approval().unwrap();
    let rx = match state.receive_answer(rx) {
        Err(rx) => rx,
        Ok(a) => panic!("answered too early: {:?}", a),
    };

    let approved = state.approve_plan();
    assert!(approved);

    let result = state.receive_answer(rx);
    assert!(matches!(result, Ok(PlanApproval::Approved)));
    assert!(!state.has_pending_plan());
}

#[test]
fn test_plan_rejection() {
    let mut state = SessionState::new();

    state.set_plan("Test plan".to_string());
    let rx = state.wait_for_plan_approval().unwrap();

    let rejected = state.reject_plan(Some("Not good".to_string()));
    assert!(rejected);

    let result = state.receive_answer(rx);
    assert!(matches!(result, Ok(PlanApproval::Rejected(Some(ref r))) if r == "Not good"));
}

#[test]
fn answer_given_before_waiting_is_kept() {
    let mut state = SessionState::new();
    state.set_plan("Plan".to_string());
    assert!(state.approve_plan());
    assert!(!state.approve_plan());
    assert_eq!(state.get_plan(), None);
    let rx = state.wait_for_plan_approval().unwrap();
    assert!(matches!(state.receive_answer(rx), Ok(PlanApproval::Approved)));
    assert!(state.wait_for_plan_approval().is_none());
}

#[test]
fn no_plan_means_nothing_to_wait_for() {
    let mut state = SessionState::new();
    assert!(!state.has_pending_plan());
    assert!(state.wait_for_plan_approval().is_none());
    assert!(!state.reject_plan(None));
}

#[test]
fn replacing_a_plan_closes_the_waiters_channel() {
    let mut state = SessionState::new();
    state.set_plan("First".to_string());
    let rx = state.wait_for_plan_approval().unwrap();
    state.set_plan("Second".to_string());
    assert_eq!(state.get_plan(), Some("Second".to_string()));
    match state.receive_answer(rx) {
        Ok(PlanApproval::Rejected(Some(m))) => assert_eq!(m, "Channel closed"),
        other => panic!("unexpected {:?}", other),
    }
    // The new plan is still pending and answered on its own channel.
    let rx2 = state.wait_for_plan_approval().unwrap();
    assert!(state.reject_plan(None));
    assert!(matches!(state.receive_answer(rx2), Ok(PlanApproval::Rejected(None))));
}

#[test]
fn clearing_a_plan_stops_it_from_being_answered() {
    let mut state = SessionState::new();
    state.set_plan("Plan".to_string());
    state.clear_plan();
    assert!(!state.has_pending_plan());
    assert!(!state.approve_plan());
    assert!(state.wait_for_plan_approval().is_none());
}

#[test]
fn default_session_is_empty() {
    let state = SessionState::default();
    assert_eq!(state.todos_count(), 0);
    assert_eq!(state.get_plan(), None);
}
