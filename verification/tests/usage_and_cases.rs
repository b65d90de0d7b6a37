use devflow::agent::usage::{SessionUsageTracker, TokenUsage};
use devflow::evals::cases::{
    code_review_no_changes, get_all_cases, get_cases_by_category, senior_architect_review,
};
use devflow::evals::real_eval::find_case;
use devflow::git::types::{FileStatus, LineKind};

#[test]
fn test_new_tracker_starts_at_zero() {
    let tracker = SessionUsageTracker::new();
    let totals = tracker.get_totals();
    assert_eq!(totals.input_tokens, 0);
    assert_eq!(totals.output_tokens, 0);
}

#[test]
fn test_add_tokens_accumulates() {
    let mut tracker = SessionUsageTracker::new();

    let totals1 = tracker.add_tokens(100, 50);
    assert_eq!(totals1.input_tokens, 100);
    assert_eq!(totals1.output_tokens, 50);

    let totals2 = tracker.add_tokens(200, 100);
    assert_eq!(totals2.input_tokens, 300);
    assert_eq!(totals2.output_tokens, 150);

    let totals3 = tracker.get_totals();
    assert_eq!(totals3.input_tokens, 300);
    assert_eq!(totals3.output_tokens, 150);
}

#[test]
fn test_reset_clears_totals() {
    let mut tracker = SessionUsageTracker::new();
    tracker.add_tokens(100, 50);

    let totals = tracker.get_totals();
    assert_eq!(totals.input_tokens, 100);
    assert_eq!(totals.output_tokens, 50);

    tracker.reset();

    let totals = tracker.get_totals();
    assert_eq!(totals.input_tokens, 0);
    assert_eq!(totals.output_tokens, 0);
}

#[test]
fn test_default_impl() {
    let tracker = SessionUsageTracker::default();
    let totals = tracker.get_totals();
    assert_eq!(totals.input_tokens, 0);
    assert_eq!(totals.output_tokens, 0);
}

#[test]
fn tracker_sums_many_additions() {
    let mut tracker = SessionUsageTracker::new();
    for _ in 0..100 {
        tracker.add_tokens(10, 5);
    }
    let totals = tracker.get_totals();
    assert_eq!(totals.input_tokens, 1000);
    assert_eq!(totals.output_tokens, 500);
    let usage = TokenUsage::default();
    assert_eq!(usage.input_tokens, 0);
}

#[test]
fn test_all_cases_have_ids() {
    let cases = get_all_cases();
    for case in cases {
        assert!(!case.id.is_empty(), "Case must have an ID");
        assert!(!case.prompt.is_empty(), "Case must have a prompt");
    }
}

#[test]
fn test_review_cases_are_read_only() {
    let review_cases = get_cases_by_category("review");
    for case in review_cases {
        assert_eq!(
            case.expected.read_only,
            Some(true),
            "Review case '{}' should be read-only",
            case.id
        );
    }
}

#[test]
fn test_senior_architect_review_expectations() {
    let case = senior_architect_review();
    assert!(case
        .expected
        .forbidden_tools
        .contains(&"edit_file".to_string()));
    assert!(case
        .expected
        .forbidden_tools
        .contains(&"write_file".to_string()));
    assert!(case.expected.required_tools.contains(&"bash".to_string()));
}

#[test]
fn categories_partition_the_cases() {
    assert_eq!(get_all_cases().len(), 8);
    let total = ["review", "search", "complex", "safety"]
        .iter()
        .map(|c| get_cases_by_category(c).len())
        .sum::<usize>();
    assert_eq!(total, 8);
    assert_eq!(get_cases_by_category("anything else").len(), 8);
}

#[test]
fn find_case_by_id() {
    assert_eq!(find_case("code_review_no_changes").unwrap().id, code_review_no_changes().id);
    match find_case("missing") {
        Err(e) => assert_eq!(e.message(), "Tool execution error: Unknown case: missing"),
        Ok(_) => panic!("found a missing case"),
    }
}

#[test]
fn export_typescript_types() {
    // The types of the git view are plain values that can be built.
    let _ = FileStatus::Modified;
    let _ = LineKind::Context;
}
