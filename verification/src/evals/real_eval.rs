//! Running a case against a real model: finding the case, what the run yields,
//! and the report of it.
use vstd::prelude::*;

use super::cases::{all_cases_view, get_all_cases};
use super::runner::{
    all_passed, case_checks, evaluate_case, judgeable, severity_name, tool_names, truncate,
    truncatable, truncated, AgentRunData,
};
use super::types::{
    assertions_view, case_view, expected_view, usages_view, AssertionView, EvalCase, EvalResult, Severity, ToolUsage,
    ToolUsageView,
};
use crate::agent::error::AgentError;
use crate::agent::usage::UsageTotals;
use crate::text::{chars_of, decimal, decimal_exec, push_all, push_str, str_eq, string_of};

verus! {

broadcast use vstd::string::group_string_axioms;

/// The case with an id, if one of the cases has it.
pub fn find_case(case_id: &str) -> (r: Result<EvalCase, AgentError>)
    ensures
        match r {
            Ok(c) => c.id@ == case_id@ && exists|i: int|
                0 <= i < all_cases_view().len() && all_cases_view()[i] == case_view(c),
            Err(e) => (forall|i: int|
                0 <= i < all_cases_view().len() ==> all_cases_view()[i].id != case_id@) && (e matches AgentError::ToolExecutionError(m) && m@ == "Unknown case: "@ + case_id@),
        },
{
    let mut cases = get_all_cases();
    let ghost all = all_cases_view();
    let mut i: usize = 0;
    while i < cases.len()
        invariant
            i <= cases@.len(),
            super::types::cases_view(cases@) == all,
            all == all_cases_view(),
            forall|j: int| 0 <= j < i ==> all[j].id != case_id@,
        decreases cases@.len() - i,
    {
        assert(all[i as int] == case_view(cases@[i as int]));
        if str_eq(cases[i].id.as_str(), case_id) {
            let c = cases.remove(i);
            return Ok(c);
        }
        i = i + 1;
    }
    let mut m = chars_of("Unknown case: ");
    push_str(&mut m, case_id);
    Err(AgentError::ToolExecutionError(string_of(m.as_slice())))
}

/// The note kept when a run ends with an error.
pub open spec fn error_note_spec(error_debug: Seq<char>) -> Seq<char> {
    "Run ended with error: "@ + error_debug
}

/// What a run yields: on success its text and tool rounds; on an error (given by
/// its debug text) the note as output and the number of tool calls made, with the
/// note kept apart.
pub fn run_outcome(
    outcome: Result<(String, u32), String>,
    tools_used: Vec<ToolUsage>,
    totals: UsageTotals,
    duration_ms: u64,
) -> (r: (AgentRunData, Option<String>))
    requires
        totals.input_tokens + totals.output_tokens <= u32::MAX,
    ensures
        usages_view(r.0.tools_used@) == usages_view(tools_used@),
        r.0.tokens_used == totals.input_tokens + totals.output_tokens,
        r.0.duration_ms == duration_ms,
        match outcome {
            Ok((text, rounds)) => r.0.output@ == text@ && r.0.iterations == rounds && r.1 is None,
            Err(d) => r.0.output@ == error_note_spec(d@) && r.0.iterations
                == tools_used@.len() as u32 && (r.1 matches Some(n) && n@ == error_note_spec(d@)),
        },
{
    let (output, iterations, note) = match outcome {
        Ok((text, rounds)) => (text, rounds, None),
        Err(d) => {
            let mut m = chars_of("Run ended with error: ");
            push_str(&mut m, d.as_str());
            (string_of(m.as_slice()), tools_used.len() as u32, Some(string_of(m.as_slice())))
        },
    };
    (
        AgentRunData {
            tools_used,
            output,
            iterations,
            tokens_used: totals.input_tokens + totals.output_tokens,
            duration_ms,
        },
        note,
    )
}

/// A result after a run that ended with an error: failed, with the note appended
/// to its output.
pub fn apply_error_note(result: EvalResult, note: Option<String>) -> (r: EvalResult)
    ensures
        match note {
            Some(n) => !r.passed && r.output@ == result.output@ + "\n\n[ERROR: "@ + n@ + "]"@,
            None => r.passed == result.passed && r.output@ == result.output@,
        },
        r.case_id == result.case_id,
        r.assertions == result.assertions,
        r.iterations == result.iterations,
        r.tokens_used == result.tokens_used,
        r.duration_ms == result.duration_ms,
{
    let mut result = result;
    if let Some(n) = note {
        let mut out = chars_of(result.output.as_str());
        push_str(&mut out, "\n\n[ERROR: ");
        push_str(&mut out, n.as_str());
        push_str(&mut out, "]");
        result.passed = false;
        result.output = string_of(out.as_slice());
    }
    result
}

/// Judges a finished run, failing it when it ended with an error.
pub fn judge_run(case: &EvalCase, run_data: &AgentRunData, note: Option<String>) -> (r: EvalResult)
    requires
        judgeable(expected_view(case.expected), run_data.output@),
    ensures
        ({
            let names = tool_names(usages_view(run_data.tools_used@));
            let checks = case_checks(expected_view(case.expected), names, run_data.output@);
            &&& r.case_id@ == case.id@
            &&& assertions_view(r.assertions@) == checks
            &&& r.passed == (all_passed(checks) && note is None)
            &&& r.output@ == match note {
                Some(n) => run_data.output@ + "\n\n[ERROR: "@ + n@ + "]"@,
                None => run_data.output@,
            }
            &&& r.iterations == run_data.iterations
            &&& r.tokens_used == run_data.tokens_used
            &&& r.duration_ms == run_data.duration_ms
        }),
{
    let result = evaluate_case(case, run_data);
    apply_error_note(result, note)
}

/// A rule of sixty `=`.
pub open spec fn rule() -> Seq<char> {
    Seq::new(60, |i: int| '=')
}

/// One line per tool call, numbered from 1, with its status.
pub open spec fn tool_lines(tools: Seq<ToolUsageView>) -> Seq<char>
    decreases tools.len(),
{
    if tools.len() == 0 {
        seq![]
    } else {
        tool_lines(tools.drop_last()) + "  "@ + decimal(tools.len()) + ". "@ + tools.last().name
            + " ["@ + (if tools.last().is_error {
            "ERROR"@
        } else {
            "OK"@
        }) + "]\n"@
    }
}

/// The line of a check: its mark, severity, name and expectation; a failed check
/// adds what was found.
pub open spec fn assertion_line(x: AssertionView) -> Seq<char> {
    "  ["@ + (if x.passed {
        "✓"@
    } else {
        "✗"@
    }) + "] "@ + severity_name(x.severity) + " "@ + x.name + " - "@ + x.expected + "\n"@ + if x.passed {
        seq![]
    } else {
        "       Actual: "@ + x.actual + "\n"@
    }
}

/// One line per check, in order.
pub open spec fn assertion_lines(a: Seq<AssertionView>) -> Seq<char>
    decreases a.len(),
{
    if a.len() == 0 {
        seq![]
    } else {
        assertion_lines(a.drop_last()) + assertion_line(a.last())
    }
}

fn push_assertion_line(out: &mut Vec<char>, a: &super::types::AssertionResult)
    ensures
        final(out)@ == old(out)@ + assertion_line(super::types::assertion_view(*a)),
{
    push_str(out, "  [");
    if a.passed {
        push_str(out, "✓");
    } else {
        push_str(out, "✗");
    }
    push_str(out, "] ");
    push_all(out, severity_chars(a.severity).as_slice());
    push_str(out, " ");
    push_str(out, a.name.as_str());
    push_str(out, " - ");
    push_str(out, a.expected.as_str());
    push_str(out, "\n");
    if !a.passed {
        push_str(out, "       Actual: ");
        push_str(out, a.actual.as_str());
        push_str(out, "\n");
    }
}

/// The report of a run: status, metrics, the tools called, the checks, and the
/// start of the output.
pub open spec fn report_spec(run: AgentRunData, result: EvalResult) -> Seq<char> {
    "\n"@ + rule() + "\n"@ + "EVAL REPORT: "@ + result.case_id@ + "\n"@ + rule() + "\n"@
        + "\n## Status: "@ + (if result.passed {
        "PASS ✓"@
    } else {
        "FAIL ✗"@
    }) + "\n"@ + "\n## Metrics\n"@ + "  - Duration: "@ + decimal(run.duration_ms as nat) + "ms\n"@
        + "  - Tokens: "@ + decimal(run.tokens_used as nat) + "\n"@ + "  - Tool iterations: "@
        + decimal(run.iterations as nat) + "\n"@ + "  - Tools used: "@ + decimal(
        run.tools_used@.len(),
    ) + "\n"@ + "\n## Tool Sequence\n"@ + tool_lines(usages_view(run.tools_used@))
        + "\n## Assertions\n"@ + assertion_lines(assertions_view(result.assertions@))
        + "\n## Agent Output (first 500 chars)\n"@ + truncated(run.output@, 500) + "\n"@ + "\n"@
        + rule() + "\n"@
}

fn push_rule(out: &mut Vec<char>)
    ensures
        final(out)@ == old(out)@ + rule(),
{
    let ghost start = out@;
    let mut i: usize = 0;
    while i < 60
        invariant
            i <= 60,
            out@ == start + Seq::new(i as nat, |k: int| '='),
        decreases 60 - i,
    {
        out.push('=');
        assert(Seq::new((i + 1) as nat, |k: int| '=') =~= Seq::new(i as nat, |k: int| '=').push('='));
        i = i + 1;
    }
    assert(Seq::new(60, |k: int| '=') =~= rule());
}

fn severity_chars(s: Severity) -> (r: Vec<char>)
    ensures
        r@ == severity_name(s),
{
    match s {
        Severity::Critical => chars_of("Critical"),
        Severity::Major => chars_of("Major"),
        Severity::Minor => chars_of("Minor"),
    }
}

/// The report of a run, as printed after it.
pub fn eval_report(run_data: &AgentRunData, eval_result: &EvalResult) -> (r: String)
    requires
        truncatable(run_data.output@, 500),
    ensures
        r@ == report_spec(*run_data, *eval_result),
{
    let mut out = chars_of("\n");
    push_rule(&mut out);
    push_str(&mut out, "\n");
    push_str(&mut out, "EVAL REPORT: ");
    push_str(&mut out, eval_result.case_id.as_str());
    push_str(&mut out, "\n");
    push_rule(&mut out);
    push_str(&mut out, "\n");
    push_str(&mut out, "\n## Status: ");
    if eval_result.passed {
        push_str(&mut out, "PASS ✓");
    } else {
        push_str(&mut out, "FAIL ✗");
    }
    push_str(&mut out, "\n");
    push_str(&mut out, "\n## Metrics\n");
    push_str(&mut out, "  - Duration: ");
    push_all(&mut out, decimal_exec(run_data.duration_ms).as_slice());
    push_str(&mut out, "ms\n");
    push_str(&mut out, "  - Tokens: ");
    push_all(&mut out, decimal_exec(run_data.tokens_used as u64).as_slice());
    push_str(&mut out, "\n");
    push_str(&mut out, "  - Tool iterations: ");
    push_all(&mut out, decimal_exec(run_data.iterations as u64).as_slice());
    push_str(&mut out, "\n");
    push_str(&mut out, "  - Tools used: ");
    push_all(&mut out, decimal_exec(run_data.tools_used.len() as u64).as_slice());
    push_str(&mut out, "\n");
    push_str(&mut out, "\n## Tool Sequence\n");
    let ghost tv = usages_view(run_data.tools_used@);
    let ghost mid = out@;
    let mut i: usize = 0;
    while i < run_data.tools_used.len()
        invariant
            i <= run_data.tools_used@.len(),
            tv == usages_view(run_data.tools_used@),
            out@ == mid + tool_lines(tv.take(i as int)),
        decreases run_data.tools_used@.len() - i,
    {
        let t = &run_data.tools_used[i];
        assert(tv.take(i + 1).drop_last() =~= tv.take(i as int));
        push_str(&mut out, "  ");
        push_all(&mut out, decimal_exec((i + 1) as u64).as_slice());
        push_str(&mut out, ". ");
        push_str(&mut out, t.name.as_str());
        push_str(&mut out, " [");
        if t.is_error {
            push_str(&mut out, "ERROR");
        } else {
            push_str(&mut out, "OK");
        }
        push_str(&mut out, "]\n");
        i = i + 1;
    }
    assert(tv.take(run_data.tools_used@.len() as int) =~= tv);
    push_str(&mut out, "\n## Assertions\n");
    let ghost av = assertions_view(eval_result.assertions@);
    let ghost mid2 = out@;
    let mut j: usize = 0;
    while j < eval_result.assertions.len()
        invariant
            j <= eval_result.assertions@.len(),
            av == assertions_view(eval_result.assertions@),
            out@ == mid2 + assertion_lines(av.take(j as int)),
        decreases eval_result.assertions@.len() - j,
    {
        assert(av.take(j + 1).drop_last() =~= av.take(j as int));
        push_assertion_line(&mut out, &eval_result.assertions[j]);
        j = j + 1;
    }
    assert(av.take(eval_result.assertions@.len() as int) =~= av);
    push_str(&mut out, "\n## Agent Output (first 500 chars)\n");
    let preview = truncate(run_data.output.as_str(), 500);
    push_all(&mut out, preview.as_slice());
    push_str(&mut out, "\n");
    push_str(&mut out, "\n");
    push_rule(&mut out);
    push_str(&mut out, "\n");
    string_of(out.as_slice())
}

} // verus!
