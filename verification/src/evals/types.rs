//! Types for behavioral evaluation of agent outputs.
use vstd::prelude::*;

use crate::text::strings_view;

verus! {

/// A test case for evaluating agent behavior.
#[derive(Debug, Clone)]
pub struct EvalCase {
    /// Unique identifier for this test case.
    pub id: String,
    /// Human-readable description.
    pub description: String,
    /// The prompt to send to the agent.
    pub prompt: String,
    /// Expected behaviors to check.
    pub expected: ExpectedBehavior,
    /// Setup files to create before running.
    pub setup_files: Vec<SetupFile>,
}

/// A file to create before running the eval.
#[derive(Debug, Clone)]
pub struct SetupFile {
    pub path: String,
    pub content: String,
}

/// Expected behaviors for comparison.
#[derive(Debug, Clone)]
pub struct ExpectedBehavior {
    /// Whether the agent is expected to keep a todo list.
    pub uses_todos: Option<bool>,
    /// Should this be read-only (no write/edit tools)?
    pub read_only: Option<bool>,
    /// Should the agent search before reading specific files?
    pub searches_before_reading: Option<bool>,
    /// Tools that MUST be used.
    pub required_tools: Vec<String>,
    /// Tools that must NOT be used.
    pub forbidden_tools: Vec<String>,
    /// Patterns that must appear in output (regex).
    pub output_must_contain: Vec<String>,
    /// Patterns that must NOT appear in output.
    pub output_must_not_contain: Vec<String>,
    /// Expected tool call order (partial match).
    pub tool_sequence: Vec<String>,
    /// Minimum number of files to read.
    pub min_files_read: Option<u32>,
    /// Should output have structured sections (for reviews)?
    pub structured_output: Option<bool>,
}

impl Default for ExpectedBehavior {
    fn default() -> (r: Self)
        ensures
            r.uses_todos is None,
            r.read_only is None,
            r.searches_before_reading is None,
            r.required_tools@ == Seq::<String>::empty(),
            r.forbidden_tools@ == Seq::<String>::empty(),
            r.output_must_contain@ == Seq::<String>::empty(),
            r.output_must_not_contain@ == Seq::<String>::empty(),
            r.tool_sequence@ == Seq::<String>::empty(),
            r.min_files_read is None,
            r.structured_output is None,
            expected_view(r) == no_expectations(),
    {
        assert(strings_view(Seq::<String>::empty()) =~= Seq::<Seq<char>>::empty());
        ExpectedBehavior {
            uses_todos: None,
            read_only: None,
            searches_before_reading: None,
            required_tools: Vec::new(),
            forbidden_tools: Vec::new(),
            output_must_contain: Vec::new(),
            output_must_not_contain: Vec::new(),
            tool_sequence: Vec::new(),
            min_files_read: None,
            structured_output: None,
        }
    }
}

/// Result of running an eval case.
#[derive(Debug, Clone)]
pub struct EvalResult {
    /// The case that was run.
    pub case_id: String,
    /// Overall pass/fail.
    pub passed: bool,
    /// Individual assertion results.
    pub assertions: Vec<AssertionResult>,
    /// Tools that were called.
    pub tools_used: Vec<ToolUsage>,
    /// Tool call sequence (names only).
    pub tool_sequence: Vec<String>,
    /// Final output text from agent.
    pub output: String,
    /// Number of LLM iterations.
    pub iterations: u32,
    /// Total tokens used.
    pub tokens_used: u32,
    /// Execution time in milliseconds.
    pub duration_ms: u64,
}

/// A single tool usage record.
#[derive(Debug, Clone)]
pub struct ToolUsage {
    pub name: String,
    /// The tool's input, as JSON text.
    pub input: String,
    pub output: String,
    pub is_error: bool,
}

/// Result of a single assertion.
#[derive(Debug, Clone)]
pub struct AssertionResult {
    pub name: String,
    pub passed: bool,
    pub expected: String,
    pub actual: String,
    pub severity: Severity,
}

/// Severity of assertion failure.
#[derive(Debug, Clone, Copy, PartialEq, Eq, Structural)]
pub enum Severity {
    /// Critical - fundamental behavior wrong.
    Critical,
    /// Major - significant issue.
    Major,
    /// Minor - suboptimal but acceptable.
    Minor,
}

/// Summary of multiple eval runs.
#[derive(Debug, Clone)]
pub struct EvalSummary {
    pub total_cases: u32,
    pub passed: u32,
    pub failed: u32,
    pub critical_failures: u32,
    pub major_failures: u32,
    pub minor_failures: u32,
    pub results: Vec<EvalResult>,
}

/// The value of an assertion result.
pub struct AssertionView {
    pub name: Seq<char>,
    pub passed: bool,
    pub expected: Seq<char>,
    pub actual: Seq<char>,
    pub severity: Severity,
}

/// The value of an assertion result.
pub open spec fn assertion_view(a: AssertionResult) -> AssertionView {
    AssertionView {
        name: a.name@,
        passed: a.passed,
        expected: a.expected@,
        actual: a.actual@,
        severity: a.severity,
    }
}

/// The values of assertion results.
pub open spec fn assertions_view(v: Seq<AssertionResult>) -> Seq<AssertionView> {
    v.map_values(|a: AssertionResult| assertion_view(a))
}

/// The value of a tool usage.
pub struct ToolUsageView {
    pub name: Seq<char>,
    pub input: Seq<char>,
    pub output: Seq<char>,
    pub is_error: bool,
}

/// The values of tool usages.
pub open spec fn usages_view(v: Seq<ToolUsage>) -> Seq<ToolUsageView> {
    v.map_values(
        |t: ToolUsage|
            ToolUsageView { name: t.name@, input: t.input@, output: t.output@, is_error: t.is_error },
    )
}

/// The value of an expected behaviour.
pub struct ExpectedView {
    pub uses_todos: Option<bool>,
    pub read_only: Option<bool>,
    pub searches_before_reading: Option<bool>,
    pub required_tools: Seq<Seq<char>>,
    pub forbidden_tools: Seq<Seq<char>>,
    pub output_must_contain: Seq<Seq<char>>,
    pub output_must_not_contain: Seq<Seq<char>>,
    pub tool_sequence: Seq<Seq<char>>,
    pub min_files_read: Option<u32>,
    pub structured_output: Option<bool>,
}

/// The value of an expected behaviour.
pub open spec fn expected_view(e: ExpectedBehavior) -> ExpectedView {
    ExpectedView {
        uses_todos: e.uses_todos,
        read_only: e.read_only,
        searches_before_reading: e.searches_before_reading,
        required_tools: strings_view(e.required_tools@),
        forbidden_tools: strings_view(e.forbidden_tools@),
        output_must_contain: strings_view(e.output_must_contain@),
        output_must_not_contain: strings_view(e.output_must_not_contain@),
        tool_sequence: strings_view(e.tool_sequence@),
        min_files_read: e.min_files_read,
        structured_output: e.structured_output,
    }
}

/// Expectations that check nothing.
pub open spec fn no_expectations() -> ExpectedView {
    ExpectedView {
        uses_todos: None,
        read_only: None,
        searches_before_reading: None,
        required_tools: seq![],
        forbidden_tools: seq![],
        output_must_contain: seq![],
        output_must_not_contain: seq![],
        tool_sequence: seq![],
        min_files_read: None,
        structured_output: None,
    }
}

/// The value of an eval case (its setup files are listed by count).
pub struct EvalCaseView {
    pub id: Seq<char>,
    pub description: Seq<char>,
    pub prompt: Seq<char>,
    pub expected: ExpectedView,
    pub setup_files: nat,
}

/// The value of an eval case.
pub open spec fn case_view(c: EvalCase) -> EvalCaseView {
    EvalCaseView {
        id: c.id@,
        description: c.description@,
        prompt: c.prompt@,
        expected: expected_view(c.expected),
        setup_files: c.setup_files@.len(),
    }
}

/// The values of eval cases.
pub open spec fn cases_view(v: Seq<EvalCase>) -> Seq<EvalCaseView> {
    v.map_values(|c: EvalCase| case_view(c))
}

/// The failures of one severity among assertions.
pub open spec fn failures_of(a: Seq<AssertionView>, s: Severity) -> nat
    decreases a.len(),
{
    if a.len() == 0 {
        0
    } else {
        failures_of(a.drop_last(), s) + if !a.last().passed && a.last().severity == s {
            1nat
        } else {
            0nat
        }
    }
}

impl EvalSummary {
    /// An empty summary.
    pub fn new() -> (r: Self)
        ensures
            r.total_cases == 0,
            r.passed == 0,
            r.failed == 0,
            r.critical_failures == 0,
            r.major_failures == 0,
            r.minor_failures == 0,
            r.results@.len() == 0,
    {
        EvalSummary {
            total_cases: 0,
            passed: 0,
            failed: 0,
            critical_failures: 0,
            major_failures: 0,
            minor_failures: 0,
            results: Vec::new(),
        }
    }

    /// Counts a result: a passed case counts as passed; a failed one as failed,
    /// with each failed assertion counted under its severity.
    pub fn add_result(&mut self, result: EvalResult)
        requires
            old(self).total_cases < u32::MAX,
            old(self).passed < u32::MAX,
            old(self).failed < u32::MAX,
            old(self).critical_failures + failures_of(
                assertions_view(result.assertions@),
                Severity::Critical,
            ) <= u32::MAX,
            old(self).major_failures + failures_of(assertions_view(result.assertions@), Severity::Major)
                <= u32::MAX,
            old(self).minor_failures + failures_of(assertions_view(result.assertions@), Severity::Minor)
                <= u32::MAX,
        ensures
            final(self).total_cases == old(self).total_cases + 1,
            final(self).passed == old(self).passed + if result.passed { 1int } else { 0int },
            final(self).failed == old(self).failed + if result.passed { 0int } else { 1int },
            final(self).critical_failures == old(self).critical_failures + if result.passed {
                0
            } else {
                failures_of(assertions_view(result.assertions@), Severity::Critical)
            },
            final(self).major_failures == old(self).major_failures + if result.passed {
                0
            } else {
                failures_of(assertions_view(result.assertions@), Severity::Major)
            },
            final(self).minor_failures == old(self).minor_failures + if result.passed {
                0
            } else {
                failures_of(assertions_view(result.assertions@), Severity::Minor)
            },
            final(self).results@ == old(self).results@.push(result),
    {
        self.total_cases = self.total_cases + 1;
        if result.passed {
            self.passed = self.passed + 1;
        } else {
            self.failed = self.failed + 1;
            let ghost av = assertions_view(result.assertions@);
            let ghost c0 = self.critical_failures;
            let ghost m0 = self.major_failures;
            let ghost n0 = self.minor_failures;
            let mut i: usize = 0;
            while i < result.assertions.len()
                invariant
                    i <= result.assertions@.len(),
                    av == assertions_view(result.assertions@),
                    self.total_cases == old(self).total_cases + 1,
                    self.passed == old(self).passed,
                    self.failed == old(self).failed + 1,
                    self.results@ == old(self).results@,
                    self.critical_failures == c0 + failures_of(av.take(i as int), Severity::Critical),
                    self.major_failures == m0 + failures_of(av.take(i as int), Severity::Major),
                    self.minor_failures == n0 + failures_of(av.take(i as int), Severity::Minor),
                    c0 + failures_of(av, Severity::Critical) <= u32::MAX,
                    m0 + failures_of(av, Severity::Major) <= u32::MAX,
                    n0 + failures_of(av, Severity::Minor) <= u32::MAX,
                decreases result.assertions@.len() - i,
            {
                proof {
                    assert(av.take(i + 1).drop_last() =~= av.take(i as int));
                    lemma_failures_prefix(av, i + 1, Severity::Critical);
                    lemma_failures_prefix(av, i + 1, Severity::Major);
                    lemma_failures_prefix(av, i + 1, Severity::Minor);
                }
                let a = &result.assertions[i];
                if !a.passed {
                    match a.severity {
                        Severity::Critical => self.critical_failures = self.critical_failures + 1,
                        Severity::Major => self.major_failures = self.major_failures + 1,
                        Severity::Minor => self.minor_failures = self.minor_failures + 1,
                    }
                }
                i = i + 1;
            }
            assert(av.take(result.assertions@.len() as int) =~= av);
        }
        self.results.push(result);
    }
}

impl Default for EvalSummary {
    fn default() -> (r: Self)
        ensures
            r.total_cases == 0,
            r.passed == 0,
            r.failed == 0,
            r.critical_failures == 0,
            r.major_failures == 0,
            r.minor_failures == 0,
            r.results@.len() == 0,
    {
        Self::new()
    }
}

/// Failures in a prefix are no more than in the whole.
pub proof fn lemma_failures_prefix(a: Seq<AssertionView>, k: int, s: Severity)
    requires
        0 <= k <= a.len(),
    ensures
        failures_of(a.take(k), s) <= failures_of(a, s),
    decreases a.len() - k,
{
    if k < a.len() {
        lemma_failures_prefix(a, k + 1, s);
        assert(a.take(k + 1).drop_last() =~= a.take(k));
    } else {
        assert(a.take(k) =~= a);
    }
}

} // verus!
