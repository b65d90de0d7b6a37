//! Judging an agent run against the expectations of a case, and summarising runs.
use vstd::prelude::*;

use super::types::{
    assertion_view, assertions_view, expected_view, failures_of, usages_view, AssertionResult,
    AssertionView, EvalCase, EvalResult, EvalSummary, ExpectedBehavior, ExpectedView, Severity,
    ToolUsage, ToolUsageView,
};
use crate::bindings::{debug_list, debug_strings, regex_is_match, regex_match};
use crate::text::{
    byte_prefix, byte_prefix_exec, chars_of, contains, contains_str, copy_string, decimal,
    decimal_exec, is_char_boundary, push_all, push_str, str_eq, string_of, strings_view, utf8_len,
    utf8_len_exceeds,
};

verus! {

broadcast use vstd::string::group_string_axioms;

/// Collected data from an agent run.
#[derive(Debug, Clone)]
pub struct AgentRunData {
    pub tools_used: Vec<ToolUsage>,
    pub output: String,
    pub iterations: u32,
    pub tokens_used: u32,
    pub duration_ms: u64,
}

// ---------------------------------------------------------------------------
// What a run is judged by
// ---------------------------------------------------------------------------

/// The names of the tools called, in order.
pub open spec fn tool_names(tools: Seq<ToolUsageView>) -> Seq<Seq<char>> {
    tools.map_values(|t: ToolUsageView| t.name)
}

/// A tool that writes or edits files.
pub open spec fn is_write_tool(t: Seq<char>) -> bool {
    t == "write_file"@ || t == "edit_file"@ || t == "multi_edit"@
}

/// A tool that searches the codebase.
pub open spec fn is_search_tool(t: Seq<char>) -> bool {
    t == "glob"@ || t == "grep"@
}

/// The calls of writing tools, in order.
pub open spec fn write_calls(names: Seq<Seq<char>>) -> Seq<Seq<char>>
    decreases names.len(),
{
    if names.len() == 0 {
        seq![]
    } else if is_write_tool(names.last()) {
        write_calls(names.drop_last()).push(names.last())
    } else {
        write_calls(names.drop_last())
    }
}

/// Some call used a writing tool.
pub open spec fn used_write(names: Seq<Seq<char>>) -> bool {
    exists|i: int| 0 <= i < names.len() && is_write_tool(#[trigger] names[i])
}

/// A search came before the first read, or nothing was read at all.
pub open spec fn searched_first(names: Seq<Seq<char>>) -> bool {
    ||| forall|i: int| 0 <= i < names.len() ==> #[trigger] names[i] != "read_file"@
    ||| exists|s: int|
        0 <= s < names.len() && is_search_tool(#[trigger] names[s]) && forall|j: int|
            0 <= j < s ==> names[j] != "read_file"@
}

/// How many calls are named `t`.
pub open spec fn count_named(names: Seq<Seq<char>>, t: Seq<char>) -> nat
    decreases names.len(),
{
    if names.len() == 0 {
        0
    } else {
        count_named(names.drop_last(), t) + if names.last() == t {
            1nat
        } else {
            0nat
        }
    }
}

/// `s` cut to its first `max` bytes with `...` appended, when it is longer (the
/// cut falls on a char boundary).
pub open spec fn truncated(s: Seq<char>, max: nat) -> Seq<char> {
    if utf8_len(s) <= max {
        s
    } else {
        byte_prefix(s, max) + "..."@
    }
}

/// `s` can be cut at byte `max` without splitting a character, or needs no cut.
pub open spec fn truncatable(s: Seq<char>, max: nat) -> bool {
    utf8_len(s) <= max || is_char_boundary(s, max)
}

/// Whether a pattern is found in the output; a pattern that does not compile is
/// replaced by `.`.
pub open spec fn pattern_found(p: Seq<char>, out: Seq<char>) -> bool {
    match regex_is_match(p, out) {
        Some(b) => b,
        None => regex_is_match("."@, out) == Some(true),
    }
}

/// An assertion result with the given parts.
pub open spec fn check(
    name: Seq<char>,
    passed: bool,
    expected: Seq<char>,
    actual: Seq<char>,
    severity: Severity,
) -> AssertionView {
    AssertionView { name, passed, expected, actual, severity }
}

/// The read-only check.
pub open spec fn read_only_checks(e: ExpectedView, names: Seq<Seq<char>>) -> Seq<AssertionView> {
    if e.read_only == Some(true) {
        seq![
            check(
                "read_only"@,
                !used_write(names),
                "No write/edit tools"@,
                if used_write(names) {
                    "Used: "@ + debug_strings(write_calls(names))
                } else {
                    "Read-only tools only"@
                },
                Severity::Critical,
            ),
        ]
    } else {
        seq![]
    }
}

/// The check that a required tool was used.
pub open spec fn required_check(r: Seq<char>, names: Seq<Seq<char>>) -> AssertionView {
    check(
        "required_tool_"@ + r,
        names.contains(r),
        "Should use '"@ + r + "'"@,
        if names.contains(r) {
            "Used '"@ + r + "'"@
        } else {
            "Did not use '"@ + r + "'. Used: "@ + debug_strings(names)
        },
        Severity::Major,
    )
}

/// The check that a forbidden tool was not used.
pub open spec fn forbidden_check(f: Seq<char>, names: Seq<Seq<char>>) -> AssertionView {
    check(
        "forbidden_tool_"@ + f,
        !names.contains(f),
        "Should NOT use '"@ + f + "'"@,
        if names.contains(f) {
            "Used forbidden tool '"@ + f + "'"@
        } else {
            "Did not use forbidden tool"@
        },
        Severity::Critical,
    )
}

/// The checks of the required tools, in order.
pub open spec fn required_checks(rs: Seq<Seq<char>>, names: Seq<Seq<char>>) -> Seq<AssertionView> {
    rs.map_values(|r: Seq<char>| required_check(r, names))
}

/// The checks of the forbidden tools, in order.
pub open spec fn forbidden_checks(fs: Seq<Seq<char>>, names: Seq<Seq<char>>) -> Seq<AssertionView> {
    fs.map_values(|f: Seq<char>| forbidden_check(f, names))
}

/// The todo-list check.
pub open spec fn todo_checks(e: ExpectedView, names: Seq<Seq<char>>) -> Seq<AssertionView> {
    match e.uses_todos {
        Some(want) => seq![
            check(
                "uses_todos"@,
                names.contains("todo_write"@) == want,
                if want {
                    "Should use todo_write"@
                } else {
                    "Should not use todo_write"@
                },
                if names.contains("todo_write"@) {
                    "Used todo_write"@
                } else {
                    "Did not use todo_write"@
                },
                Severity::Major,
            ),
        ],
        None => seq![],
    }
}

/// The first five calls, or all of them when there are fewer.
pub open spec fn first_five(names: Seq<Seq<char>>) -> Seq<Seq<char>> {
    if names.len() <= 5 {
        names
    } else {
        names.take(5)
    }
}

/// The search-before-read check.
pub open spec fn search_checks(e: ExpectedView, names: Seq<Seq<char>>) -> Seq<AssertionView> {
    if e.searches_before_reading == Some(true) {
        seq![
            check(
                "searches_before_reading"@,
                searched_first(names),
                "Should search (glob/grep) before reading files"@,
                "Tool sequence: "@ + debug_strings(first_five(names)),
                Severity::Major,
            ),
        ]
    } else {
        seq![]
    }
}

/// The number of files read, as the `u32` it is counted in.
pub open spec fn files_read(names: Seq<Seq<char>>) -> u32 {
    count_named(names, "read_file"@) as u32
}

/// The minimum-reads check.
pub open spec fn min_read_checks(e: ExpectedView, names: Seq<Seq<char>>) -> Seq<AssertionView> {
    match e.min_files_read {
        Some(m) => seq![
            check(
                "min_files_read"@,
                files_read(names) >= m,
                "Should read at least "@ + decimal(m as nat) + " files"@,
                "Read "@ + decimal(files_read(names) as nat) + " files"@,
                Severity::Minor,
            ),
        ],
        None => seq![],
    }
}

/// The check that a pattern is found in the output.
pub open spec fn contains_check(p: Seq<char>, out: Seq<char>) -> AssertionView {
    check(
        "output_contains_"@ + truncated(p, 20),
        pattern_found(p, out),
        "Output should match: "@ + p,
        if pattern_found(p, out) {
            "Pattern found"@
        } else {
            "Pattern not found in output (first 200 chars): "@ + truncated(out, 200)
        },
        Severity::Major,
    )
}

/// The check that a pattern is not found in the output.
pub open spec fn not_contains_check(p: Seq<char>, out: Seq<char>) -> AssertionView {
    check(
        "output_not_contains_"@ + truncated(p, 20),
        !pattern_found(p, out),
        "Output should NOT match: "@ + p,
        if pattern_found(p, out) {
            "Forbidden pattern found"@
        } else {
            "Pattern not found (good)"@
        },
        Severity::Critical,
    )
}

/// The checks of the patterns that must be found, in order.
pub open spec fn contains_checks(ps: Seq<Seq<char>>, out: Seq<char>) -> Seq<AssertionView> {
    ps.map_values(|p: Seq<char>| contains_check(p, out))
}

/// The checks of the patterns that must not be found, in order.
pub open spec fn not_contains_checks(ps: Seq<Seq<char>>, out: Seq<char>) -> Seq<AssertionView> {
    ps.map_values(|p: Seq<char>| not_contains_check(p, out))
}

/// The output has headers, bullet points or a numbered list.
pub open spec fn has_structure(out: Seq<char>) -> bool {
    contains(out, "#"@) || contains(out, "- "@) || contains(out, "1."@) || contains(out, "* "@)
}

/// The structured-output check.
pub open spec fn structure_checks(e: ExpectedView, out: Seq<char>) -> Seq<AssertionView> {
    if e.structured_output == Some(true) {
        seq![
            check(
                "structured_output"@,
                has_structure(out),
                "Output should be structured (headers, lists, etc.)"@,
                if has_structure(out) {
                    "Has structured formatting"@
                } else {
                    "No clear structure detected"@
                },
                Severity::Minor,
            ),
        ]
    } else {
        seq![]
    }
}

/// Every check of a case on a run, in the order they are made.
pub open spec fn case_checks(e: ExpectedView, names: Seq<Seq<char>>, out: Seq<char>) -> Seq<
    AssertionView,
> {
    read_only_checks(e, names) + required_checks(e.required_tools, names) + forbidden_checks(
        e.forbidden_tools,
        names,
    ) + todo_checks(e, names) + search_checks(e, names) + min_read_checks(e, names)
        + contains_checks(e.output_must_contain, out) + not_contains_checks(
        e.output_must_not_contain,
        out,
    ) + structure_checks(e, out)
}

/// How many checks a case makes.
pub open spec fn check_count(e: ExpectedView) -> nat {
    (if e.read_only == Some(true) { 1nat } else { 0nat }) + e.required_tools.len()
        + e.forbidden_tools.len() + (if e.uses_todos is Some { 1nat } else { 0nat }) + (
    if e.searches_before_reading == Some(true) {
        1nat
    } else {
        0nat
    }) + (if e.min_files_read is Some { 1nat } else { 0nat }) + e.output_must_contain.len()
        + e.output_must_not_contain.len() + (if e.structured_output == Some(true) {
        1nat
    } else {
        0nat
    })
}

/// Every check passed.
pub open spec fn all_passed(a: Seq<AssertionView>) -> bool {
    forall|i: int| 0 <= i < a.len() ==> (#[trigger] a[i]).passed
}

/// The case can be judged on this output without cutting a character in two:
/// each pattern where its name is cut, and the output where a missing pattern
/// quotes it.
pub open spec fn judgeable(e: ExpectedView, out: Seq<char>) -> bool {
    &&& forall|i: int|
        0 <= i < e.output_must_contain.len() ==> truncatable(
            #[trigger] e.output_must_contain[i],
            20,
        )
    &&& forall|i: int|
        0 <= i < e.output_must_not_contain.len() ==> truncatable(
            #[trigger] e.output_must_not_contain[i],
            20,
        )
    &&& (truncatable(out, 200) || forall|i: int|
        0 <= i < e.output_must_contain.len() ==> pattern_found(
            #[trigger] e.output_must_contain[i],
            out,
        ))
}

// ---------------------------------------------------------------------------
// Executable helpers
// ---------------------------------------------------------------------------

proof fn lemma_push_view(a: Seq<AssertionResult>, x: AssertionResult)
    ensures
        assertions_view(a.push(x)) == assertions_view(a).push(assertion_view(x)),
{
    assert(assertions_view(a.push(x)) =~= assertions_view(a).push(assertion_view(x)));
}

fn push_check(
    acc: &mut Vec<AssertionResult>,
    name: Vec<char>,
    passed: bool,
    expected: Vec<char>,
    actual: Vec<char>,
    severity: Severity,
)
    ensures
        assertions_view(final(acc)@) == assertions_view(old(acc)@).push(
            check(name@, passed, expected@, actual@, severity),
        ),
{
    let a = AssertionResult {
        name: string_of(name.as_slice()),
        passed,
        expected: string_of(expected.as_slice()),
        actual: string_of(actual.as_slice()),
        severity,
    };
    proof {
        lemma_push_view(acc@, a);
    }
    acc.push(a);
}

fn text(s: &str) -> (r: Vec<char>)
    ensures
        r@ == s@,
{
    chars_of(s)
}

fn cat2(a: &str, b: &[char]) -> (r: Vec<char>)
    ensures
        r@ == a@ + b@,
{
    let mut r = chars_of(a);
    push_all(&mut r, b);
    r
}

fn cat3(a: &str, b: &[char], c: &str) -> (r: Vec<char>)
    ensures
        r@ == a@ + b@ + c@,
{
    let mut r = chars_of(a);
    push_all(&mut r, b);
    push_str(&mut r, c);
    r
}

/// Whether some name equals `t`.
fn any_named(names: &Vec<String>, t: &str) -> (r: bool)
    ensures
        r == strings_view(names@).contains(t@),
{
    let ghost nv = strings_view(names@);
    let mut i: usize = 0;
    while i < names.len()
        invariant
            i <= names@.len(),
            nv == strings_view(names@),
            forall|j: int| 0 <= j < i ==> nv[j] != t@,
        decreases names@.len() - i,
    {
        if str_eq(names[i].as_str(), t) {
            assert(nv[i as int] == t@);
            return true;
        }
        i = i + 1;
    }
    false
}

fn is_write_name(t: &str) -> (r: bool)
    ensures
        r == is_write_tool(t@),
{
    str_eq(t, "write_file") || str_eq(t, "edit_file") || str_eq(t, "multi_edit")
}

fn is_search_name(t: &str) -> (r: bool)
    ensures
        r == is_search_tool(t@),
{
    str_eq(t, "glob") || str_eq(t, "grep")
}

/// The calls of writing tools, in order.
fn write_calls_exec(names: &Vec<String>) -> (r: Vec<String>)
    ensures
        strings_view(r@) == write_calls(strings_view(names@)),
{
    let ghost nv = strings_view(names@);
    let mut r: Vec<String> = Vec::new();
    let mut i: usize = 0;
    while i < names.len()
        invariant
            i <= names@.len(),
            nv == strings_view(names@),
            strings_view(r@) == write_calls(nv.take(i as int)),
        decreases names@.len() - i,
    {
        let ghost before = r@;
        assert(nv.take(i + 1).drop_last() =~= nv.take(i as int));
        if is_write_name(names[i].as_str()) {
            r.push(copy_string(names[i].as_str()));
            assert(strings_view(r@) =~= strings_view(before).push(nv[i as int]));
        }
        i = i + 1;
    }
    assert(nv.take(names@.len() as int) =~= nv);
    r
}

/// Whether some call used a writing tool.
fn used_write_exec(names: &Vec<String>) -> (r: bool)
    ensures
        r == used_write(strings_view(names@)),
{
    let ghost nv = strings_view(names@);
    let mut i: usize = 0;
    while i < names.len()
        invariant
            i <= names@.len(),
            nv == strings_view(names@),
            forall|j: int| 0 <= j < i ==> !is_write_tool(#[trigger] nv[j]),
        decreases names@.len() - i,
    {
        if is_write_name(names[i].as_str()) {
            assert(is_write_tool(nv[i as int]));
            return true;
        }
        i = i + 1;
    }
    false
}

/// Whether a search came before the first read.
fn searched_first_exec(names: &Vec<String>) -> (r: bool)
    ensures
        r == searched_first(strings_view(names@)),
{
    let ghost nv = strings_view(names@);
    let mut searched = false;
    let mut i: usize = 0;
    while i < names.len()
        invariant
            i <= names@.len(),
            nv == strings_view(names@),
            forall|j: int| 0 <= j < i ==> #[trigger] nv[j] != "read_file"@,
            searched == exists|s: int| 0 <= s < i && is_search_tool(#[trigger] nv[s]),
        decreases names@.len() - i,
    {
        if str_eq(names[i].as_str(), "read_file") {
            proof {
                assert(nv[i as int] == "read_file"@);
                if searched {
                    let s = choose|s: int| 0 <= s < i && is_search_tool(#[trigger] nv[s]);
                    assert(forall|j: int| 0 <= j < s ==> nv[j] != "read_file"@);
                } else {
                    assert forall|s: int|
                        0 <= s < nv.len() && is_search_tool(#[trigger] nv[s]) implies !(forall|
                        j: int,
                    |
                        0 <= j < s ==> nv[j] != "read_file"@) by {
                        if s < i {
                        } else {
                            reveal_strlit("read_file");
                            reveal_strlit("glob");
                            reveal_strlit("grep");
                            assert(s != i);
                            assert(0 <= i < s);
                        }
                    }
                }
            }
            return searched;
        }
        if is_search_name(names[i].as_str()) {
            assert(is_search_tool(nv[i as int]));
            searched = true;
        } else {
            assert(!is_search_tool(nv[i as int]));
        }
        i = i + 1;
    }
    true
}

/// How many calls are named `t`.
fn count_named_exec(names: &Vec<String>, t: &str) -> (r: usize)
    ensures
        r == count_named(strings_view(names@), t@),
{
    let ghost nv = strings_view(names@);
    let mut n: usize = 0;
    let mut i: usize = 0;
    while i < names.len()
        invariant
            i <= names@.len(),
            nv == strings_view(names@),
            n == count_named(nv.take(i as int), t@),
            n <= i,
        decreases names@.len() - i,
    {
        assert(nv.take(i + 1).drop_last() =~= nv.take(i as int));
        if str_eq(names[i].as_str(), t) {
            n = n + 1;
        }
        i = i + 1;
    }
    assert(nv.take(names@.len() as int) =~= nv);
    n
}

/// `s` cut to its first `max_len` bytes with `...` appended, when it is longer.
pub(crate) fn truncate(s: &str, max_len: usize) -> (r: Vec<char>)
    requires
        max_len <= 1000,
        truncatable(s@, max_len as nat),
    ensures
        r@ == truncated(s@, max_len as nat),
{
    let sv = chars_of(s);
    if utf8_len_exceeds(sv.as_slice(), max_len) {
        let mut r = byte_prefix_exec(sv.as_slice(), max_len);
        push_str(&mut r, "...");
        r
    } else {
        sv
    }
}

/// Whether a pattern is found in the output (a pattern that does not compile is
/// replaced by `.`).
fn pattern_found_exec(p: &str, out: &str) -> (r: bool)
    ensures
        r == pattern_found(p@, out@),
{
    match regex_match(p, out) {
        Some(b) => b,
        None => match regex_match(".", out) {
            Some(b) => b,
            None => false,
        },
    }
}

fn push_read_only(acc: &mut Vec<AssertionResult>, e: &ExpectedBehavior, names: &Vec<String>)
    ensures
        assertions_view(final(acc)@) == assertions_view(old(acc)@) + read_only_checks(
            expected_view(*e),
            strings_view(names@),
        ),
{
    let ghost base = assertions_view(acc@);
    match e.read_only {
        Some(true) => {
            let used = used_write_exec(names);
            let actual = if used {
                let writes = write_calls_exec(names);
                let d = debug_list(&writes);
                let dv = chars_of(d.as_str());
                cat2("Used: ", dv.as_slice())
            } else {
                text("Read-only tools only")
            };
            push_check(acc, text("read_only"), !used, text("No write/edit tools"), actual, Severity::Critical);
            assert(assertions_view(acc@) =~= base + read_only_checks(
                expected_view(*e),
                strings_view(names@),
            ));
        },
        _ => {
            assert(assertions_view(acc@) =~= base + read_only_checks(
                expected_view(*e),
                strings_view(names@),
            ));
        },
    }
}

fn push_required(acc: &mut Vec<AssertionResult>, rs: &Vec<String>, names: &Vec<String>)
    ensures
        assertions_view(final(acc)@) == assertions_view(old(acc)@) + required_checks(
            strings_view(rs@),
            strings_view(names@),
        ),
{
    let ghost base = assertions_view(acc@);
    let ghost rv = strings_view(rs@);
    let ghost nv = strings_view(names@);
    let d = debug_list(names);
    let dv = chars_of(d.as_str());
    let mut i: usize = 0;
    while i < rs.len()
        invariant
            i <= rs@.len(),
            rv == strings_view(rs@),
            nv == strings_view(names@),
            dv@ == debug_strings(nv),
            assertions_view(acc@) == base + required_checks(rv.take(i as int), nv),
        decreases rs@.len() - i,
    {
        let r = rs[i].as_str();
        let rc = chars_of(r);
        let found = any_named(names, r);
        let actual = if found {
            cat3("Used '", rc.as_slice(), "'")
        } else {
            let mut a = cat3("Did not use '", rc.as_slice(), "'. Used: ");
            push_all(&mut a, dv.as_slice());
            a
        };
        push_check(
            acc,
            cat2("required_tool_", rc.as_slice()),
            found,
            cat3("Should use '", rc.as_slice(), "'"),
            actual,
            Severity::Major,
        );
        assert(required_checks(rv.take(i + 1), nv) =~= required_checks(rv.take(i as int), nv).push(
            required_check(rv[i as int], nv),
        ));
        i = i + 1;
    }
    assert(rv.take(rs@.len() as int) =~= rv);
}

fn push_forbidden(acc: &mut Vec<AssertionResult>, fs: &Vec<String>, names: &Vec<String>)
    ensures
        assertions_view(final(acc)@) == assertions_view(old(acc)@) + forbidden_checks(
            strings_view(fs@),
            strings_view(names@),
        ),
{
    let ghost base = assertions_view(acc@);
    let ghost fv = strings_view(fs@);
    let ghost nv = strings_view(names@);
    let mut i: usize = 0;
    while i < fs.len()
        invariant
            i <= fs@.len(),
            fv == strings_view(fs@),
            nv == strings_view(names@),
            assertions_view(acc@) == base + forbidden_checks(fv.take(i as int), nv),
        decreases fs@.len() - i,
    {
        let f = fs[i].as_str();
        let fc = chars_of(f);
        let found = any_named(names, f);
        let actual = if found {
            cat3("Used forbidden tool '", fc.as_slice(), "'")
        } else {
            text("Did not use forbidden tool")
        };
        push_check(
            acc,
            cat2("forbidden_tool_", fc.as_slice()),
            !found,
            cat3("Should NOT use '", fc.as_slice(), "'"),
            actual,
            Severity::Critical,
        );
        assert(forbidden_checks(fv.take(i + 1), nv) =~= forbidden_checks(fv.take(i as int), nv).push(
            forbidden_check(fv[i as int], nv),
        ));
        i = i + 1;
    }
    assert(fv.take(fs@.len() as int) =~= fv);
}

fn push_todos(acc: &mut Vec<AssertionResult>, e: &ExpectedBehavior, names: &Vec<String>)
    ensures
        assertions_view(final(acc)@) == assertions_view(old(acc)@) + todo_checks(
            expected_view(*e),
            strings_view(names@),
        ),
{
    let ghost base = assertions_view(acc@);
    match e.uses_todos {
        Some(want) => {
            let used = any_named(names, "todo_write");
            let expected = if want {
                text("Should use todo_write")
            } else {
                text("Should not use todo_write")
            };
            let actual = if used {
                text("Used todo_write")
            } else {
                text("Did not use todo_write")
            };
            push_check(acc, text("uses_todos"), used == want, expected, actual, Severity::Major);
        },
        None => {},
    }
    assert(assertions_view(acc@) =~= base + todo_checks(expected_view(*e), strings_view(names@)));
}

fn push_search(acc: &mut Vec<AssertionResult>, e: &ExpectedBehavior, names: &Vec<String>)
    ensures
        assertions_view(final(acc)@) == assertions_view(old(acc)@) + search_checks(
            expected_view(*e),
            strings_view(names@),
        ),
{
    let ghost base = assertions_view(acc@);
    let ghost nv = strings_view(names@);
    match e.searches_before_reading {
        Some(true) => {
            let ok = searched_first_exec(names);
            let mut first: Vec<String> = Vec::new();
            let mut i: usize = 0;
            while i < names.len() && i < 5
                invariant
                    i <= names@.len(),
                    i <= 5,
                    nv == strings_view(names@),
                    strings_view(first@) == nv.take(i as int),
                decreases names@.len() - i,
            {
                let ghost before = first@;
                first.push(copy_string(names[i].as_str()));
                assert(strings_view(first@) =~= strings_view(before).push(nv[i as int]));
                assert(nv.take(i + 1) =~= nv.take(i as int).push(nv[i as int]));
                i = i + 1;
            }
            assert(strings_view(first@) =~= first_five(nv));
            let d = debug_list(&first);
            let dv = chars_of(d.as_str());
            push_check(
                acc,
                text("searches_before_reading"),
                ok,
                text("Should search (glob/grep) before reading files"),
                cat2("Tool sequence: ", dv.as_slice()),
                Severity::Major,
            );
        },
        _ => {},
    }
    assert(assertions_view(acc@) =~= base + search_checks(expected_view(*e), nv));
}

fn push_min_read(acc: &mut Vec<AssertionResult>, e: &ExpectedBehavior, names: &Vec<String>)
    ensures
        assertions_view(final(acc)@) == assertions_view(old(acc)@) + min_read_checks(
            expected_view(*e),
            strings_view(names@),
        ),
{
    let ghost base = assertions_view(acc@);
    match e.min_files_read {
        Some(m) => {
            let count = count_named_exec(names, "read_file");
            let n: u32 = count as u32;
            let md = decimal_exec(m as u64);
            let nd = decimal_exec(n as u64);
            push_check(
                acc,
                text("min_files_read"),
                n >= m,
                cat3("Should read at least ", md.as_slice(), " files"),
                cat3("Read ", nd.as_slice(), " files"),
                Severity::Minor,
            );
        },
        None => {},
    }
    assert(assertions_view(acc@) =~= base + min_read_checks(expected_view(*e), strings_view(names@)));
}

fn push_contains(acc: &mut Vec<AssertionResult>, ps: &Vec<String>, out: &str)
    requires
        forall|i: int| 0 <= i < ps@.len() ==> truncatable(#[trigger] strings_view(ps@)[i], 20),
        truncatable(out@, 200) || forall|i: int|
            0 <= i < ps@.len() ==> pattern_found(#[trigger] strings_view(ps@)[i], out@),
    ensures
        assertions_view(final(acc)@) == assertions_view(old(acc)@) + contains_checks(
            strings_view(ps@),
            out@,
        ),
{
    let ghost base = assertions_view(acc@);
    let ghost pv = strings_view(ps@);
    let mut i: usize = 0;
    while i < ps.len()
        invariant
            i <= ps@.len(),
            pv == strings_view(ps@),
            forall|j: int| 0 <= j < ps@.len() ==> truncatable(#[trigger] strings_view(ps@)[j], 20),
            truncatable(out@, 200) || forall|j: int|
                0 <= j < ps@.len() ==> pattern_found(#[trigger] strings_view(ps@)[j], out@),
            assertions_view(acc@) == base + contains_checks(pv.take(i as int), out@),
        decreases ps@.len() - i,
    {
        let p = ps[i].as_str();
        assert(truncatable(pv[i as int], 20));
        let found = pattern_found_exec(p, out);
        let actual = if found {
            text("Pattern found")
        } else {
            let t = truncate(out, 200);
            cat2("Pattern not found in output (first 200 chars): ", t.as_slice())
        };
        let name = truncate(p, 20);
        push_check(
            acc,
            cat2("output_contains_", name.as_slice()),
            found,
            cat2("Output should match: ", chars_of(p).as_slice()),
            actual,
            Severity::Major,
        );
        assert(contains_checks(pv.take(i + 1), out@) =~= contains_checks(pv.take(i as int), out@).push(
            contains_check(pv[i as int], out@),
        ));
        i = i + 1;
    }
    assert(pv.take(ps@.len() as int) =~= pv);
}

fn push_not_contains(acc: &mut Vec<AssertionResult>, ps: &Vec<String>, out: &str)
    requires
        forall|i: int| 0 <= i < ps@.len() ==> truncatable(#[trigger] strings_view(ps@)[i], 20),
    ensures
        assertions_view(final(acc)@) == assertions_view(old(acc)@) + not_contains_checks(
            strings_view(ps@),
            out@,
        ),
{
    let ghost base = assertions_view(acc@);
    let ghost pv = strings_view(ps@);
    let mut i: usize = 0;
    while i < ps.len()
        invariant
            i <= ps@.len(),
            pv == strings_view(ps@),
            forall|j: int| 0 <= j < ps@.len() ==> truncatable(#[trigger] strings_view(ps@)[j], 20),
            assertions_view(acc@) == base + not_contains_checks(pv.take(i as int), out@),
        decreases ps@.len() - i,
    {
        let p = ps[i].as_str();
        assert(truncatable(pv[i as int], 20));
        let found = pattern_found_exec(p, out);
        let actual = if found {
            text("Forbidden pattern found")
        } else {
            text("Pattern not found (good)")
        };
        let name = truncate(p, 20);
        push_check(
            acc,
            cat2("output_not_contains_", name.as_slice()),
            !found,
            cat2("Output should NOT match: ", chars_of(p).as_slice()),
            actual,
            Severity::Critical,
        );
        assert(not_contains_checks(pv.take(i + 1), out@) =~= not_contains_checks(
            pv.take(i as int),
            out@,
        ).push(not_contains_check(pv[i as int], out@)));
        i = i + 1;
    }
    assert(pv.take(ps@.len() as int) =~= pv);
}

fn push_structure(acc: &mut Vec<AssertionResult>, e: &ExpectedBehavior, out: &str)
    ensures
        assertions_view(final(acc)@) == assertions_view(old(acc)@) + structure_checks(
            expected_view(*e),
            out@,
        ),
{
    let ghost base = assertions_view(acc@);
    match e.structured_output {
        Some(true) => {
            let ov = chars_of(out);
            let has = contains_str(ov.as_slice(), "#") || contains_str(ov.as_slice(), "- ")
                || contains_str(ov.as_slice(), "1.") || contains_str(ov.as_slice(), "* ");
            let actual = if has {
                text("Has structured formatting")
            } else {
                text("No clear structure detected")
            };
            push_check(
                acc,
                text("structured_output"),
                has,
                text("Output should be structured (headers, lists, etc.)"),
                actual,
                Severity::Minor,
            );
        },
        _ => {},
    }
    assert(assertions_view(acc@) =~= base + structure_checks(expected_view(*e), out@));
}

/// The names of the tools called, in order.
fn tool_names_exec(tools: &Vec<ToolUsage>) -> (r: Vec<String>)
    ensures
        strings_view(r@) == tool_names(usages_view(tools@)),
{
    let ghost tv = tool_names(usages_view(tools@));
    let mut r: Vec<String> = Vec::new();
    let mut i: usize = 0;
    while i < tools.len()
        invariant
            i <= tools@.len(),
            tv == tool_names(usages_view(tools@)),
            strings_view(r@) == tv.take(i as int),
        decreases tools@.len() - i,
    {
        let ghost before = r@;
        r.push(copy_string(tools[i].name.as_str()));
        assert(strings_view(r@) =~= strings_view(before).push(tv[i as int]));
        assert(tv.take(i + 1) =~= tv.take(i as int).push(tv[i as int]));
        i = i + 1;
    }
    assert(tv.take(tools@.len() as int) =~= tv);
    r
}

/// A copy of the tool usages.
fn copy_usages(tools: &Vec<ToolUsage>) -> (r: Vec<ToolUsage>)
    ensures
        usages_view(r@) == usages_view(tools@),
{
    let ghost tv = usages_view(tools@);
    let mut r: Vec<ToolUsage> = Vec::new();
    let mut i: usize = 0;
    while i < tools.len()
        invariant
            i <= tools@.len(),
            tv == usages_view(tools@),
            usages_view(r@) == tv.take(i as int),
        decreases tools@.len() - i,
    {
        let t = &tools[i];
        let ghost before = r@;
        r.push(
            ToolUsage {
                name: copy_string(t.name.as_str()),
                input: copy_string(t.input.as_str()),
                output: copy_string(t.output.as_str()),
                is_error: t.is_error,
            },
        );
        assert(usages_view(r@) =~= usages_view(before).push(tv[i as int]));
        assert(tv.take(i + 1) =~= tv.take(i as int).push(tv[i as int]));
        i = i + 1;
    }
    assert(tv.take(tools@.len() as int) =~= tv);
    r
}

/// Whether every check passed.
fn all_passed_exec(a: &Vec<AssertionResult>) -> (r: bool)
    ensures
        r == all_passed(assertions_view(a@)),
{
    let ghost av = assertions_view(a@);
    let mut i: usize = 0;
    while i < a.len()
        invariant
            i <= a@.len(),
            av == assertions_view(a@),
            forall|j: int| 0 <= j < i ==> (#[trigger] av[j]).passed,
        decreases a@.len() - i,
    {
        if !a[i].passed {
            assert(!av[i as int].passed);
            return false;
        }
        i = i + 1;
    }
    true
}

/// A run of a read-only case that used a writing tool fails: its first check is
/// the critical read-only check, and it did not pass.
pub proof fn law_write_fails_read_only_case(e: ExpectedView, names: Seq<Seq<char>>, out: Seq<char>)
    requires
        e.read_only == Some(true),
        used_write(names),
    ensures
        case_checks(e, names, out).len() > 0,
        !case_checks(e, names, out)[0].passed,
        case_checks(e, names, out)[0].severity == Severity::Critical,
        !all_passed(case_checks(e, names, out)),
{
    let c = case_checks(e, names, out);
    assert(c[0] == read_only_checks(e, names)[0]);
}

/// A run that passes a read-only case used no writing tool.
pub proof fn law_read_only_pass_means_no_write(e: ExpectedView, names: Seq<Seq<char>>, out: Seq<char>)
    requires
        e.read_only == Some(true),
        all_passed(case_checks(e, names, out)),
    ensures
        !used_write(names),
{
    if used_write(names) {
        law_write_fails_read_only_case(e, names, out);
    }
}

/// What judging `case` on `run` gives: every check of the case in order, passed
/// when all of them passed, with the run's calls, output and counters copied.
pub open spec fn judged(case: EvalCase, run: AgentRunData, r: EvalResult) -> bool {
    let names = tool_names(usages_view(run.tools_used@));
    let checks = case_checks(expected_view(case.expected), names, run.output@);
    &&& r.case_id@ == case.id@
    &&& assertions_view(r.assertions@) == checks
    &&& r.passed == all_passed(checks)
    &&& usages_view(r.tools_used@) == usages_view(run.tools_used@)
    &&& strings_view(r.tool_sequence@) == names
    &&& r.output@ == run.output@
    &&& r.iterations == run.iterations
    &&& r.tokens_used == run.tokens_used
    &&& r.duration_ms == run.duration_ms
}

/// Judging a read-only case fails the run as soon as it called any of the tools
/// that write or edit files (`write_file`, `edit_file` or `multi_edit`): the first
/// check is the critical `read_only` check, it did not pass, and neither did the run.
pub proof fn law_any_writing_tool_fails_read_only(
    case: EvalCase,
    run: AgentRunData,
    r: EvalResult,
    i: int,
)
    requires
        judged(case, run, r),
        case.expected.read_only == Some(true),
        0 <= i < run.tools_used@.len(),
        run.tools_used@[i].name@ == "write_file"@ || run.tools_used@[i].name@ == "edit_file"@
            || run.tools_used@[i].name@ == "multi_edit"@,
    ensures
        !r.passed,
        assertions_view(r.assertions@).len() > 0,
        assertions_view(r.assertions@)[0].name == "read_only"@,
        !assertions_view(r.assertions@)[0].passed,
        assertions_view(r.assertions@)[0].severity == Severity::Critical,
{
    let names = tool_names(usages_view(run.tools_used@));
    let e = expected_view(case.expected);
    let out = run.output@;
    assert(names[i] == run.tools_used@[i].name@);
    assert(is_write_tool(names[i]));
    assert(used_write(names));
    law_write_fails_read_only_case(e, names, out);
    let c = case_checks(e, names, out);
    assert(c[0] == read_only_checks(e, names)[0]);
}

/// Checks all assertions of a case against the data of a run.
pub fn evaluate_case(case: &EvalCase, run_data: &AgentRunData) -> (r: EvalResult)
    requires
        judgeable(expected_view(case.expected), run_data.output@),
    ensures
        judged(*case, *run_data, r),
{
    let e = &case.expected;
    let names = tool_names_exec(&run_data.tools_used);
    let out = run_data.output.as_str();
    let mut assertions: Vec<AssertionResult> = Vec::new();
    push_read_only(&mut assertions, e, &names);
    push_required(&mut assertions, &e.required_tools, &names);
    push_forbidden(&mut assertions, &e.forbidden_tools, &names);
    push_todos(&mut assertions, e, &names);
    push_search(&mut assertions, e, &names);
    push_min_read(&mut assertions, e, &names);
    let ghost ev = expected_view(*e);
    assert(ev.output_must_contain == strings_view(e.output_must_contain@));
    assert(ev.output_must_not_contain == strings_view(e.output_must_not_contain@));
    assert(forall|i: int|
        0 <= i < e.output_must_contain@.len() ==> truncatable(
            #[trigger] strings_view(e.output_must_contain@)[i],
            20,
        )) by {
        assert(forall|i: int|
            0 <= i < e.output_must_contain@.len() ==> #[trigger] strings_view(
                e.output_must_contain@,
            )[i] == ev.output_must_contain[i]);
    }
    assert(forall|i: int|
        0 <= i < e.output_must_not_contain@.len() ==> truncatable(
            #[trigger] strings_view(e.output_must_not_contain@)[i],
            20,
        )) by {
        assert(forall|i: int|
            0 <= i < e.output_must_not_contain@.len() ==> #[trigger] strings_view(
                e.output_must_not_contain@,
            )[i] == ev.output_must_not_contain[i]);
    }
    push_contains(&mut assertions, &e.output_must_contain, out);
    push_not_contains(&mut assertions, &e.output_must_not_contain, out);
    push_structure(&mut assertions, e, out);
    assert(assertions_view(assertions@) =~= case_checks(
        expected_view(*e),
        strings_view(names@),
        out@,
    ));
    let passed = all_passed_exec(&assertions);
    EvalResult {
        case_id: copy_string(case.id.as_str()),
        passed,
        assertions,
        tools_used: copy_usages(&run_data.tools_used),
        tool_sequence: names,
        output: copy_string(out),
        iterations: run_data.iterations,
        tokens_used: run_data.tokens_used,
        duration_ms: run_data.duration_ms,
    }
}

/// Whether `s` can be cut at byte `max`, or needs no cut.
fn truncatable_exec(s: &str, max: usize) -> (r: bool)
    requires
        max <= 1000,
    ensures
        r == truncatable(s@, max as nat),
{
    let sv = chars_of(s);
    if !utf8_len_exceeds(sv.as_slice(), max) {
        return true;
    }
    match crate::text::byte_boundary(sv.as_slice(), max) {
        Some(k) => {
            assert(crate::text::boundary_at(s@, max as nat, k as int));
            true
        },
        None => false,
    }
}

/// Whether every string of `ps` can be cut at byte `max`, or needs no cut.
fn all_truncatable(ps: &Vec<String>, max: usize) -> (r: bool)
    requires
        max <= 1000,
    ensures
        r == forall|i: int|
            0 <= i < ps@.len() ==> truncatable(#[trigger] strings_view(ps@)[i], max as nat),
{
    let ghost pv = strings_view(ps@);
    let mut i: usize = 0;
    while i < ps.len()
        invariant
            i <= ps@.len(),
            max <= 1000,
            pv == strings_view(ps@),
            forall|j: int| 0 <= j < i ==> truncatable(#[trigger] pv[j], max as nat),
        decreases ps@.len() - i,
    {
        if !truncatable_exec(ps[i].as_str(), max) {
            assert(!truncatable(pv[i as int], max as nat));
            return false;
        }
        i = i + 1;
    }
    true
}

/// Whether every pattern of `ps` is found in `out`.
fn all_found(ps: &Vec<String>, out: &str) -> (r: bool)
    ensures
        r == forall|i: int|
            0 <= i < ps@.len() ==> pattern_found(#[trigger] strings_view(ps@)[i], out@),
{
    let ghost pv = strings_view(ps@);
    let mut i: usize = 0;
    while i < ps.len()
        invariant
            i <= ps@.len(),
            pv == strings_view(ps@),
            forall|j: int| 0 <= j < i ==> pattern_found(#[trigger] pv[j], out@),
        decreases ps@.len() - i,
    {
        if !pattern_found_exec(ps[i].as_str(), out) {
            assert(!pattern_found(pv[i as int], out@));
            return false;
        }
        i = i + 1;
    }
    true
}

/// Judges a run when that can be done without cutting a character in two, and
/// gives `None` exactly when it cannot (see `judgeable`).
pub fn try_evaluate_case(case: &EvalCase, run_data: &AgentRunData) -> (r: Option<EvalResult>)
    ensures
        r is Some <==> judgeable(expected_view(case.expected), run_data.output@),
        r matches Some(x) ==> judged(*case, *run_data, x),
{
    let e = &case.expected;
    let out = run_data.output.as_str();
    let ok = all_truncatable(&e.output_must_contain, 20) && all_truncatable(
        &e.output_must_not_contain,
        20,
    ) && (truncatable_exec(out, 200) || all_found(&e.output_must_contain, out));
    let ghost ev = expected_view(*e);
    assert(ev.output_must_contain == strings_view(e.output_must_contain@));
    assert(ev.output_must_not_contain == strings_view(e.output_must_not_contain@));
    if ok {
        Some(evaluate_case(case, run_data))
    } else {
        None
    }
}

/// How many results passed.
pub open spec fn passed_count(rs: Seq<EvalResult>) -> nat
    decreases rs.len(),
{
    if rs.len() == 0 {
        0
    } else {
        passed_count(rs.drop_last()) + if rs.last().passed {
            1nat
        } else {
            0nat
        }
    }
}

/// The failed checks of one severity over the failed results.
pub open spec fn failure_total(rs: Seq<EvalResult>, s: Severity) -> nat
    decreases rs.len(),
{
    if rs.len() == 0 {
        0
    } else {
        failure_total(rs.drop_last(), s) + if rs.last().passed {
            0nat
        } else {
            failures_of(assertions_view(rs.last().assertions@), s)
        }
    }
}

/// How many checks the cases make in all.
pub open spec fn checks_total(cases: Seq<EvalCase>) -> nat
    decreases cases.len(),
{
    if cases.len() == 0 {
        0
    } else {
        checks_total(cases.drop_last()) + check_count(expected_view(cases.last().expected))
    }
}

/// The number of (case, run) pairs: the shorter of the two lists.
pub open spec fn pair_count(cases: nat, runs: nat) -> nat {
    if cases <= runs {
        cases
    } else {
        runs
    }
}

/// Failed checks of a severity are no more than the checks.
pub proof fn lemma_failures_le_len(a: Seq<AssertionView>, s: Severity)
    ensures
        failures_of(a, s) <= a.len(),
    decreases a.len(),
{
    if a.len() > 0 {
        lemma_failures_le_len(a.drop_last(), s);
    }
}

/// The checks of a prefix of the cases are no more than those of a longer one.
pub proof fn lemma_checks_total_mono(cases: Seq<EvalCase>, i: int, j: int)
    requires
        0 <= i <= j <= cases.len(),
    ensures
        checks_total(cases.take(i)) <= checks_total(cases.take(j)),
    decreases j - i,
{
    if i < j {
        lemma_checks_total_mono(cases, i, j - 1);
        assert(cases.take(j).drop_last() =~= cases.take(j - 1));
    }
}

/// Runs every case on its run (pairing them in order, up to the shorter list)
/// and summarises the results.
pub fn run_eval_suite(cases: &[EvalCase], run_data: &[AgentRunData]) -> (r: EvalSummary)
    requires
        pair_count(cases@.len(), run_data@.len()) <= u32::MAX,
        checks_total(cases@.take(pair_count(cases@.len(), run_data@.len()) as int)) <= u32::MAX,
        forall|i: int|
            0 <= i < pair_count(cases@.len(), run_data@.len()) ==> judgeable(
                expected_view(#[trigger] cases@[i].expected),
                run_data@[i].output@,
            ),
    ensures
        r.results@.len() == pair_count(cases@.len(), run_data@.len()),
        forall|i: int|
            0 <= i < r.results@.len() ==> judged(cases@[i], run_data@[i], #[trigger] r.results@[i]),
        r.total_cases == r.results@.len(),
        r.passed == passed_count(r.results@),
        r.failed == r.results@.len() - passed_count(r.results@),
        r.total_cases == r.passed + r.failed,
        r.critical_failures == failure_total(r.results@, Severity::Critical),
        r.major_failures == failure_total(r.results@, Severity::Major),
        r.minor_failures == failure_total(r.results@, Severity::Minor),
{
    let n: usize = if cases.len() <= run_data.len() {
        cases.len()
    } else {
        run_data.len()
    };
    let mut summary = EvalSummary::new();
    let mut i: usize = 0;
    while i < n
        invariant
            n == pair_count(cases@.len(), run_data@.len()),
            n <= u32::MAX,
            i <= n,
            checks_total(cases@.take(n as int)) <= u32::MAX,
            forall|k: int|
                0 <= k < n ==> judgeable(
                    expected_view(#[trigger] cases@[k].expected),
                    run_data@[k].output@,
                ),
            summary.results@.len() == i,
            forall|k: int|
                0 <= k < i ==> judged(cases@[k], run_data@[k], #[trigger] summary.results@[k]),
            summary.total_cases == i,
            summary.passed == passed_count(summary.results@),
            summary.passed <= i,
            summary.failed == i - passed_count(summary.results@),
            summary.critical_failures == failure_total(summary.results@, Severity::Critical),
            summary.major_failures == failure_total(summary.results@, Severity::Major),
            summary.minor_failures == failure_total(summary.results@, Severity::Minor),
            summary.critical_failures <= checks_total(cases@.take(i as int)),
            summary.major_failures <= checks_total(cases@.take(i as int)),
            summary.minor_failures <= checks_total(cases@.take(i as int)),
        decreases n - i,
    {
        let result = evaluate_case(&cases[i], &run_data[i]);
        let ghost old_results = summary.results@;
        proof {
            let a = assertions_view(result.assertions@);
            lemma_failures_le_len(a, Severity::Critical);
            lemma_failures_le_len(a, Severity::Major);
            lemma_failures_le_len(a, Severity::Minor);
            assert(cases@.take(i + 1).drop_last() =~= cases@.take(i as int));
            lemma_checks_total_mono(cases@, i + 1, n as int);
        }
        summary.add_result(result);
        proof {
            assert(summary.results@.drop_last() =~= old_results);
        }
        i = i + 1;
    }
    summary
}

/// The name that `Debug` gives a severity.
pub open spec fn severity_name(s: Severity) -> Seq<char> {
    match s {
        Severity::Critical => "Critical"@,
        Severity::Major => "Major"@,
        Severity::Minor => "Minor"@,
    }
}

/// One line per failed check, in order.
pub open spec fn failure_lines(a: Seq<AssertionView>) -> Seq<char>
    decreases a.len(),
{
    if a.len() == 0 {
        seq![]
    } else {
        failure_lines(a.drop_last()) + if !a.last().passed {
            "    ["@ + severity_name(a.last().severity) + "] "@ + a.last().name + ": "@
                + a.last().expected + " (got: "@ + a.last().actual + ")\n"@
        } else {
            seq![]
        }
    }
}

/// The report of one result: its status and id, the tools it used, its counters,
/// and, when it failed, the failed checks.
pub open spec fn result_report(r: EvalResult) -> Seq<char> {
    "\n["@ + (if r.passed {
        "PASS"@
    } else {
        "FAIL"@
    }) + "] "@ + r.case_id@ + "\n"@ + "  Tools used: "@ + debug_strings(
        strings_view(r.tool_sequence@),
    ) + "\n"@ + "  Iterations: "@ + decimal(r.iterations as nat) + ", Tokens: "@ + decimal(
        r.tokens_used as nat,
    ) + ", Duration: "@ + decimal(r.duration_ms as nat) + "ms\n"@ + if r.passed {
        seq![]
    } else {
        "  Failed assertions:\n"@ + failure_lines(assertions_view(r.assertions@))
    }
}

fn severity_text(s: Severity) -> (r: Vec<char>)
    ensures
        r@ == severity_name(s),
{
    match s {
        Severity::Critical => text("Critical"),
        Severity::Major => text("Major"),
        Severity::Minor => text("Minor"),
    }
}

/// Formats an eval result for display.
pub fn format_result(result: &EvalResult) -> (r: String)
    ensures
        r@ == result_report(*result),
{
    let mut out = text("\n[");
    if result.passed {
        push_str(&mut out, "PASS");
    } else {
        push_str(&mut out, "FAIL");
    }
    push_str(&mut out, "] ");
    push_str(&mut out, result.case_id.as_str());
    push_str(&mut out, "\n");
    push_str(&mut out, "  Tools used: ");
    let d = debug_list(&result.tool_sequence);
    push_str(&mut out, d.as_str());
    push_str(&mut out, "\n");
    push_str(&mut out, "  Iterations: ");
    let it = decimal_exec(result.iterations as u64);
    push_all(&mut out, it.as_slice());
    push_str(&mut out, ", Tokens: ");
    let tk = decimal_exec(result.tokens_used as u64);
    push_all(&mut out, tk.as_slice());
    push_str(&mut out, ", Duration: ");
    let du = decimal_exec(result.duration_ms);
    push_all(&mut out, du.as_slice());
    push_str(&mut out, "ms\n");
    let ghost head = out@;
    if !result.passed {
        push_str(&mut out, "  Failed assertions:\n");
        let ghost av = assertions_view(result.assertions@);
        let ghost mid = out@;
        let mut i: usize = 0;
        while i < result.assertions.len()
            invariant
                i <= result.assertions@.len(),
                av == assertions_view(result.assertions@),
                out@ == mid + failure_lines(av.take(i as int)),
            decreases result.assertions@.len() - i,
        {
            let a = &result.assertions[i];
            assert(av.take(i + 1).drop_last() =~= av.take(i as int));
            if !a.passed {
                push_str(&mut out, "    [");
                let sv = severity_text(a.severity);
                push_all(&mut out, sv.as_slice());
                push_str(&mut out, "] ");
                push_str(&mut out, a.name.as_str());
                push_str(&mut out, ": ");
                push_str(&mut out, a.expected.as_str());
                push_str(&mut out, " (got: ");
                push_str(&mut out, a.actual.as_str());
                push_str(&mut out, ")\n");
            }
            assert(out@ =~= mid + failure_lines(av.take(i + 1)));
            i = i + 1;
        }
        assert(av.take(result.assertions@.len() as int) =~= av);
    }
    assert(out@ =~= result_report(*result));
    string_of(out.as_slice())
}

} // verus!
