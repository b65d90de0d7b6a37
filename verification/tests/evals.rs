use devflow::agent::usage::UsageTotals;
use devflow::evals::cases::senior_architect_review;
use devflow::evals::real_eval::{apply_error_note, eval_report, judge_run, run_outcome};
use devflow::evals::runner::{evaluate_case, format_result, run_eval_suite, try_evaluate_case, AgentRunData};
use devflow::evals::types::{EvalSummary, Severity, ToolUsage};
use devflow::agent::error::AgentError;
use devflow::agent::tools::types::ToolName;
use devflow::evals::integration::{eval_timeout_error, record_usage, EvalRunConfig};

fn mock_read_only_run() -> AgentRunData {
    AgentRunData {
        tools_used: vec![
            ToolUsage {
                name: "bash".to_string(),
                input: r#"{"command":"git diff"}"#.to_string(),
                output: "diff output".to_string(),
                is_error: false,
            },
            ToolUsage {
                name: "read_file".to_string(),
                input: r#"{"path":"DESIGN.md"}"#.to_string(),
                output: "spec content".to_string(),
                is_error: false,
            },
            ToolUsage {
                name: "read_file".to_string(),
                input: r#"{"path":"src/main.rs"}"#.to_string(),
                output: "code".to_string(),
                is_error: false,
            },
        ],
        output: r#"
## Code Review Summary

### Critical Issues
None found.

### Major Issues
1. Missing error handling in auth module

### Minor Issues
- Consider renaming variable for clarity

### Recommendation
Ready to commit after addressing the major issue.
            "#
        .to_string(),
        iterations: 1,
        tokens_used: 500,
        duration_ms: 2000,
    }
}

fn mock_bad_run_uses_edit() -> AgentRunData {
    AgentRunData {
        tools_used: vec![
            ToolUsage {
                name: "bash".to_string(),
                input: r#"{"command":"git diff"}"#.to_string(),
                output: "diff".to_string(),
                is_error: false,
            },
            ToolUsage {
                name: "edit_file".to_string(), // BAD: Should not edit during review
                input: r#"{"path":"src/main.rs","old_text":"foo","new_text":"bar"}"#.to_string(),
                output: "edited".to_string(),
                is_error: false,
            },
        ],
        output: "Fixed the issue.".to_string(),
        iterations: 1,
        tokens_used: 300,
        duration_ms: 1500,
    }
}

#[test]
fn test_good_review_passes() {
    let case = senior_architect_review();
    let run_data = mock_read_only_run();

    let result = evaluate_case(&case, &run_data);

    assert!(
        result.passed,
        "Good review run should pass: {:?}",
        result.assertions
    );
}

#[test]
fn test_bad_review_fails_on_edit() {
    let case = senior_architect_review();
    let run_data = mock_bad_run_uses_edit();

    let result = evaluate_case(&case, &run_data);

    assert!(!result.passed, "Review that edits should fail");

    // Check that the right assertions failed
    let read_only_assertion = result
        .assertions
        .iter()
        .find(|a| a.name == "read_only")
        .unwrap();
    assert!(!read_only_assertion.passed);
    assert_eq!(read_only_assertion.severity, Severity::Critical);
}

#[test]
fn test_format_result_shows_failures() {
    let case = senior_architect_review();
    let run_data = mock_bad_run_uses_edit();
    let result = evaluate_case(&case, &run_data);

    let formatted = format_result(&result);

    assert!(formatted.contains("FAIL"));
    assert!(formatted.contains("read_only"));
    assert!(formatted.contains("Critical"));
}

#[test]
fn try_evaluate_matches_evaluate() {
    let case = senior_architect_review();
    let run = mock_bad_run_uses_edit();
    let a = evaluate_case(&case, &run);
    let b = try_evaluate_case(&case, &run).unwrap();
    assert_eq!(a.passed, b.passed);
    assert_eq!(a.assertions.len(), b.assertions.len());
}

#[test]
fn suite_counts_passes_and_failures() {
    let case = senior_architect_review();
    let runs = vec![mock_read_only_run(), mock_bad_run_uses_edit()];
    let summary = run_eval_suite(&[case.clone(), case], &runs);
    assert_eq!(summary.total_cases, 2);
    assert_eq!(summary.passed, 1);
    assert_eq!(summary.failed, 1);
    assert!(summary.critical_failures >= 1);
    let empty = EvalSummary::new();
    assert_eq!(empty.total_cases, 0);
}

#[test]
fn run_outcome_keeps_error_note() {
    let (data, note) = run_outcome(
        Err("Cancelled".to_string()),
        mock_bad_run_uses_edit().tools_used,
        UsageTotals {
            input_tokens: 10,
            output_tokens: 5,
        },
        7,
    );
    assert_eq!(data.output, "Run ended with error: Cancelled");
    assert_eq!(data.iterations, 2);
    assert_eq!(data.tokens_used, 15);
    assert_eq!(note, Some("Run ended with error: Cancelled".to_string()));

    let (data, note) = run_outcome(
        Ok(("done".to_string(), 3)),
        Vec::new(),
        UsageTotals {
            input_tokens: 1,
            output_tokens: 1,
        },
        9,
    );
    assert_eq!(data.output, "done");
    assert_eq!(data.iterations, 3);
    assert!(note.is_none());
}

#[test]
fn error_note_fails_the_result() {
    let case = senior_architect_review();
    let result = evaluate_case(&case, &mock_read_only_run());
    assert!(result.passed);
    let failed = apply_error_note(result, Some("boom".to_string()));
    assert!(!failed.passed);
    assert!(failed.output.ends_with("\n\n[ERROR: boom]"));
    let judged = judge_run(&case, &mock_read_only_run(), None);
    assert!(judged.passed);
}

#[test]
fn report_lists_tools_and_checks() {
    let case = senior_architect_review();
    let run = mock_bad_run_uses_edit();
    let result = evaluate_case(&case, &run);
    let report = eval_report(&run, &result);
    assert!(report.contains("EVAL REPORT: senior_architect_review"));
    assert!(report.contains("## Status: FAIL ✗"));
    assert!(report.contains("  1. bash [OK]\n  2. edit_file [OK]\n"));
    assert!(report.contains("] Critical read_only - "));
    assert!(report.contains("  - Duration: 1500ms\n"));
    assert!(report.ends_with(&format!("\n{}\n", "=".repeat(60))));
}

#[test]
fn tool_usage_is_recorded() {

    let ok = record_usage(ToolName::ReadFile, "{}".to_string(), &Ok("text".to_string()));
    assert_eq!(ok.name, "read_file");
    assert_eq!(ok.output, "text");
    assert!(!ok.is_error);
    let err = record_usage(
        ToolName::Bash,
        "{}".to_string(),
        &Err(AgentError::ToolExecutionError("boom".to_string())),
    );
    assert_eq!(err.output, "Tool execution error: boom");
    assert!(err.is_error);
    let config = EvalRunConfig::default();
    assert!(config.system_prompt.is_none());
    assert_eq!(config.max_iterations, 20);
    assert_eq!(config.tools.len(), 16);
    assert_eq!(
        eval_timeout_error(500).message(),
        "Tool execution error: Eval timed out after 500ms"
    );
}
