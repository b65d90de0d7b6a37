//! Unified diff parser for `git diff` output.
use vstd::prelude::*;

use super::types::{hunks_view, DiffHunk, DiffHunkView, DiffLine, DiffLineView, LineKind};
use crate::text::{
    before_first, chars_of, find_exec, find_first, lemma_find_first_some, lines, lines_exec,
    parse_u32, parse_u32_exec, slice_chars, starts_with, starts_with_str, string_of,
    trim_end_matches, trim_end_matches_exec, trim_start_matches, trim_start_matches_exec, vecs_view,
    words, words_exec,
};

verus! {

broadcast use vstd::string::group_string_axioms;

// ---------------------------------------------------------------------------
// Specification
// ---------------------------------------------------------------------------

/// What `"start,count"` or `"start"` means: the count is 1 when it is left out.
pub open spec fn range_spec(r: Seq<char>) -> Option<(u32, u32)> {
    match find_first(r, seq![',']) {
        Some(i) => match (parse_u32(r.take(i)), parse_u32(r.skip(i + 1))) {
            (Some(a), Some(b)) => Some((a, b)),
            _ => None,
        },
        None => match parse_u32(r) {
            Some(a) => Some((a, 1)),
            None => None,
        },
    }
}

/// The text of a hunk header between its `@@` markers, without any trailing context.
pub open spec fn header_body(line: Seq<char>) -> Seq<char> {
    before_first(
        trim_end_matches(trim_start_matches(line, "@@ "@), " @@"@),
        " @@"@,
    )
}

/// The four numbers of a hunk header `@@ -a,b +c,d @@`.
pub open spec fn hunk_header_spec(line: Seq<char>) -> Option<(u32, u32, u32, u32)> {
    let parts = words(header_body(line));
    if parts.len() < 2 {
        None
    } else {
        match (
            range_spec(trim_start_matches(parts[0], seq!['-'])),
            range_spec(trim_start_matches(parts[1], seq!['+'])),
        ) {
            (Some((a, b)), Some((c, d))) => Some((a, b, c, d)),
            _ => None,
        }
    }
}

/// The line number after `n` (wrapping at the top of `u32`).
pub open spec fn next_no(n: u32) -> u32 {
    if n == u32::MAX {
        0
    } else {
        (n + 1) as u32
    }
}

/// The file header lines of `git diff` that the parser skips.
pub open spec fn is_file_header(line: Seq<char>) -> bool {
    ||| starts_with(line, "diff --git"@)
    ||| starts_with(line, "index "@)
    ||| starts_with(line, "--- "@)
    ||| starts_with(line, "+++ "@)
}

/// The parser's state after some lines.
pub struct ParseState {
    pub hunks: Seq<DiffHunkView>,
    pub current: Option<DiffHunkView>,
    pub old_no: u32,
    pub new_no: u32,
}

/// The finished hunks, with the open one (if any) appended.
pub open spec fn flush(hunks: Seq<DiffHunkView>, current: Option<DiffHunkView>) -> Seq<
    DiffHunkView,
> {
    match current {
        Some(h) => hunks.push(h),
        None => hunks,
    }
}

/// Kind and content of a body line: `+`, `-` and space prefixes are stripped;
/// any other first character makes the whole line a context line.
pub open spec fn classify(line: Seq<char>) -> (LineKind, Seq<char>) {
    if line[0] == '+' {
        (LineKind::Addition, line.drop_first())
    } else if line[0] == '-' {
        (LineKind::Deletion, line.drop_first())
    } else if line[0] == ' ' {
        (LineKind::Context, line.drop_first())
    } else {
        (LineKind::Context, line)
    }
}

/// The line of a hunk that a body line becomes, given the running line numbers.
pub open spec fn body_line(line: Seq<char>, old_no: u32, new_no: u32) -> DiffLineView {
    let (kind, content) = classify(line);
    DiffLineView {
        kind,
        old_line_no: if kind == LineKind::Addition { None } else { Some(old_no) },
        new_line_no: if kind == LineKind::Deletion { None } else { Some(new_no) },
        content,
        highlighted: None,
    }
}

/// One step of the parser on one line.
pub open spec fn step(st: ParseState, line: Seq<char>) -> ParseState {
    if is_file_header(line) {
        st
    } else if starts_with(line, "@@"@) {
        let hunks = flush(st.hunks, st.current);
        match hunk_header_spec(line) {
            Some((a, b, c, d)) => ParseState {
                hunks,
                current: Some(
                    DiffHunkView {
                        old_start: a,
                        old_lines: b,
                        new_start: c,
                        new_lines: d,
                        lines: Seq::empty(),
                    },
                ),
                old_no: a,
                new_no: c,
            },
            None => ParseState { hunks, current: None, old_no: st.old_no, new_no: st.new_no },
        }
    } else {
        match st.current {
            None => st,
            Some(h) => if line.len() == 0 || line[0] == '\\' {
                st
            } else {
                let l = body_line(line, st.old_no, st.new_no);
                ParseState {
                    hunks: st.hunks,
                    current: Some(DiffHunkView { lines: h.lines.push(l), ..h }),
                    old_no: if l.kind == LineKind::Addition { st.old_no } else { next_no(st.old_no) },
                    new_no: if l.kind == LineKind::Deletion { st.new_no } else { next_no(st.new_no) },
                }
            },
        }
    }
}

/// The parser's state after the given lines.
pub open spec fn parse_lines(ls: Seq<Seq<char>>) -> ParseState
    decreases ls.len(),
{
    if ls.len() == 0 {
        ParseState { hunks: Seq::empty(), current: None, old_no: 0, new_no: 0 }
    } else {
        step(parse_lines(ls.drop_last()), ls.last())
    }
}

/// The hunks of a unified diff.
pub open spec fn diff_spec(s: Seq<char>) -> Seq<DiffHunkView> {
    let st = parse_lines(lines(s));
    flush(st.hunks, st.current)
}

// ---------------------------------------------------------------------------
// Implementation
// ---------------------------------------------------------------------------

/// A line's numbers fit its kind: an added line has only a new number, a removed
/// line only an old one, an unchanged line both; no line is highlighted yet.
pub open spec fn numbered(l: DiffLineView) -> bool {
    &&& (l.kind == LineKind::Addition ==> l.old_line_no is None && l.new_line_no is Some)
    &&& (l.kind == LineKind::Deletion ==> l.old_line_no is Some && l.new_line_no is None)
    &&& (l.kind == LineKind::Context ==> l.old_line_no is Some && l.new_line_no is Some)
    &&& l.highlighted is None
}

/// Every line of the hunks is numbered as its kind says.
pub open spec fn hunks_numbered(hs: Seq<DiffHunkView>) -> bool {
    forall|h: int, i: int| 0 <= h < hs.len() && 0 <= i < hs[h].lines.len() ==> numbered(#[trigger] hs[h].lines[i])
}

proof fn lemma_parse_numbered(ls: Seq<Seq<char>>)
    ensures
        hunks_numbered(parse_lines(ls).hunks),
        parse_lines(ls).current matches Some(h) ==> forall|i: int|
            0 <= i < h.lines.len() ==> numbered(#[trigger] h.lines[i]),
    decreases ls.len(),
{
    if ls.len() > 0 {
        lemma_parse_numbered(ls.drop_last());
        let st = parse_lines(ls.drop_last());
        let line = ls.last();
        if !is_file_header(line) && starts_with(line, "@@"@) {
            let hunks = flush(st.hunks, st.current);
            assert(hunks_numbered(hunks)) by {
                match st.current {
                    Some(h) => {
                        assert forall|g: int, i: int|
                            0 <= g < hunks.len() && 0 <= i < hunks[g].lines.len() implies numbered(
                            #[trigger] hunks[g].lines[i],
                        ) by {
                            if g < st.hunks.len() {
                                assert(hunks[g] == st.hunks[g]);
                            } else {
                                assert(hunks[g] == h);
                            }
                        }
                    },
                    None => {},
                }
            }
        }
    }
}

/// Every line of a parsed diff is numbered as its kind says: added lines carry only
/// a new line number, removed lines only an old one, unchanged lines both.
pub proof fn law_parsed_lines_numbered(diff: Seq<char>)
    ensures
        hunks_numbered(diff_spec(diff)),
{
    lemma_parse_numbered(lines(diff));
    let st = parse_lines(lines(diff));
    let hs = diff_spec(diff);
    match st.current {
        Some(h) => {
            assert forall|g: int, i: int|
                0 <= g < hs.len() && 0 <= i < hs[g].lines.len() implies numbered(
                #[trigger] hs[g].lines[i],
            ) by {
                if g < st.hunks.len() {
                    assert(hs[g] == st.hunks[g]);
                } else {
                    assert(hs[g] == h);
                }
            }
        },
        None => {},
    }
}

/// `start + k`, wrapping at the top of `u32` as the line counters do.
pub open spec fn wrapped(start: u32, k: nat) -> u32 {
    ((start + k) % 0x1_0000_0000) as u32
}

/// How many of the lines have an old line number (those that are not added).
pub open spec fn old_count(ls: Seq<DiffLineView>) -> nat
    decreases ls.len(),
{
    if ls.len() == 0 {
        0
    } else {
        old_count(ls.drop_last()) + if ls.last().kind == LineKind::Addition { 0nat } else { 1nat }
    }
}

/// How many of the lines have a new line number (those that are not removed).
pub open spec fn new_count(ls: Seq<DiffLineView>) -> nat
    decreases ls.len(),
{
    if ls.len() == 0 {
        0
    } else {
        new_count(ls.drop_last()) + if ls.last().kind == LineKind::Deletion { 0nat } else { 1nat }
    }
}

/// The lines of a hunk are numbered from its header: each line that has an old
/// number has the hunk's old start plus the number of such lines before it, and the
/// same for new numbers.
pub open spec fn follows_header(h: DiffHunkView) -> bool {
    forall|i: int|
        0 <= i < h.lines.len() ==> {
            &&& ((#[trigger] h.lines[i]).kind != LineKind::Addition ==> h.lines[i].old_line_no
                == Some(wrapped(h.old_start, old_count(h.lines.take(i)))))
            &&& (h.lines[i].kind != LineKind::Deletion ==> h.lines[i].new_line_no == Some(
                wrapped(h.new_start, new_count(h.lines.take(i))),
            ))
        }
}

proof fn lemma_wrapped_next(start: u32, k: nat)
    ensures
        next_no(wrapped(start, k)) == wrapped(start, k + 1),
{
    let m: int = 0x1_0000_0000;
    let x: int = start + k;
    assert(x % m + 1 == m ==> (x + 1) % m == 0) by (nonlinear_arith)
        requires
            m == 0x1_0000_0000,
            x >= 0,
    ;
    assert(x % m + 1 < m ==> (x + 1) % m == x % m + 1) by (nonlinear_arith)
        requires
            m == 0x1_0000_0000,
            x >= 0,
    ;
    assert(0 <= x % m < m) by (nonlinear_arith)
        requires
            m == 0x1_0000_0000,
    ;
}

proof fn lemma_parse_follows(ls: Seq<Seq<char>>)
    ensures
        forall|g: int| 0 <= g < parse_lines(ls).hunks.len() ==> follows_header(#[trigger] parse_lines(ls).hunks[g]),
        parse_lines(ls).current matches Some(h) ==> {
            &&& follows_header(h)
            &&& parse_lines(ls).old_no == wrapped(h.old_start, old_count(h.lines))
            &&& parse_lines(ls).new_no == wrapped(h.new_start, new_count(h.lines))
        },
    decreases ls.len(),
{
    if ls.len() > 0 {
        lemma_parse_follows(ls.drop_last());
        let st = parse_lines(ls.drop_last());
        let line = ls.last();
        let nx = parse_lines(ls);
        if is_file_header(line) {
        } else if starts_with(line, "@@"@) {
            let hunks = flush(st.hunks, st.current);
            assert forall|g: int| 0 <= g < hunks.len() implies follows_header(#[trigger] hunks[g]) by {
                if g < st.hunks.len() {
                    assert(hunks[g] == st.hunks[g]);
                }
            }
            match hunk_header_spec(line) {
                Some((a, b, c, d)) => {
                    let h = nx.current.unwrap();
                    assert(h.lines.len() == 0);
                    assert(old_count(h.lines) == 0);
                    assert(new_count(h.lines) == 0);
                    assert(wrapped(a, 0) == a);
                    assert(wrapped(c, 0) == c);
                },
                None => {},
            }
        } else {
            match st.current {
                None => {},
                Some(h) => if line.len() == 0 || line[0] == '\\' {
                } else {
                    let l = body_line(line, st.old_no, st.new_no);
                    let h2 = nx.current.unwrap();
                    assert(h2.lines == h.lines.push(l));
                    assert(h2.lines.drop_last() =~= h.lines);
                    assert(h2.lines.take(h.lines.len() as int) =~= h.lines);
                    lemma_wrapped_next(h.old_start, old_count(h.lines));
                    lemma_wrapped_next(h.new_start, new_count(h.lines));
                    assert forall|i: int| 0 <= i < h2.lines.len() implies {
                        &&& ((#[trigger] h2.lines[i]).kind != LineKind::Addition ==> h2.lines[i].old_line_no
                            == Some(wrapped(h2.old_start, old_count(h2.lines.take(i)))))
                        &&& (h2.lines[i].kind != LineKind::Deletion ==> h2.lines[i].new_line_no == Some(
                            wrapped(h2.new_start, new_count(h2.lines.take(i))),
                        ))
                    } by {
                        if i < h.lines.len() {
                            assert(h2.lines[i] == h.lines[i]);
                            assert(h2.lines.take(i) =~= h.lines.take(i));
                        } else {
                            assert(h2.lines[i] == l);
                        }
                    }
                },
            }
        }
    }
}

/// The lines of every parsed hunk are numbered from its header: old numbers count
/// up from the old start over unchanged and removed lines, new numbers from the new
/// start over unchanged and added lines (wrapping at the top of `u32`).
pub proof fn law_parsed_lines_follow_header(diff: Seq<char>)
    ensures
        forall|g: int| 0 <= g < diff_spec(diff).len() ==> follows_header(#[trigger] diff_spec(diff)[g]),
{
    lemma_parse_follows(lines(diff));
    let st = parse_lines(lines(diff));
    let hs = diff_spec(diff);
    assert forall|g: int| 0 <= g < hs.len() implies follows_header(#[trigger] hs[g]) by {
        if g < st.hunks.len() {
            assert(hs[g] == st.hunks[g]);
        }
    }
}

/// A line of `git diff` output that stands for a line of a hunk: not a file header,
/// not a hunk header, not empty, and not a `\ No newline at end of file` marker.
pub open spec fn is_body_line(line: Seq<char>) -> bool {
    &&& !is_file_header(line)
    &&& !starts_with(line, "@@"@)
    &&& line.len() > 0
    &&& line[0] != '\\'
}

/// How many of the lines stand for lines of a hunk.
pub open spec fn body_line_count(ls: Seq<Seq<char>>) -> nat
    decreases ls.len(),
{
    if ls.len() == 0 {
        0
    } else {
        body_line_count(ls.drop_last()) + if is_body_line(ls.last()) { 1nat } else { 0nat }
    }
}

/// How many lines the hunks hold in all.
pub open spec fn total_lines(hs: Seq<DiffHunkView>) -> nat
    decreases hs.len(),
{
    if hs.len() == 0 {
        0
    } else {
        total_lines(hs.drop_last()) + hs.last().lines.len()
    }
}

/// A hunk header line (one that is not a file header).
pub open spec fn is_hunk_header_line(line: Seq<char>) -> bool {
    !is_file_header(line) && starts_with(line, "@@"@)
}

/// Every hunk header of the lines can be read, and every line that stands for a
/// hunk line comes after some hunk header.
pub open spec fn well_headed(ls: Seq<Seq<char>>) -> bool {
    &&& forall|i: int| 0 <= i < ls.len() && is_hunk_header_line(#[trigger] ls[i]) ==> hunk_header_spec(ls[i]) is Some
    &&& forall|i: int| 0 <= i < ls.len() && is_body_line(#[trigger] ls[i]) ==> exists|j: int| 0 <= j < i && is_hunk_header_line(#[trigger] ls[j])
}

proof fn lemma_total_push(hs: Seq<DiffHunkView>, h: DiffHunkView)
    ensures
        total_lines(hs.push(h)) == total_lines(hs) + h.lines.len(),
{
    assert(hs.push(h).drop_last() =~= hs);
}

/// What one line adds to the lines of the hunks: one line for a body line while a
/// hunk is open, nothing otherwise.
proof fn lemma_total_step(st: ParseState, line: Seq<char>)
    ensures
        total_lines(flush(step(st, line).hunks, step(st, line).current)) == total_lines(
            flush(st.hunks, st.current),
        ) + if is_body_line(line) && st.current is Some { 1nat } else { 0nat },
{
    let nx = step(st, line);
    if is_file_header(line) {
    } else if starts_with(line, "@@"@) {
        let hunks = flush(st.hunks, st.current);
        match hunk_header_spec(line) {
            Some((a, b, c, d)) => {
                lemma_total_push(hunks, nx.current.unwrap());
            },
            None => {},
        }
    } else {
        match st.current {
            None => {},
            Some(h) => if line.len() == 0 || line[0] == '\\' {
            } else {
                let h2 = nx.current.unwrap();
                lemma_total_push(st.hunks, h);
                lemma_total_push(st.hunks, h2);
            },
        }
    }
}

proof fn lemma_total_bounded(ls: Seq<Seq<char>>)
    ensures
        total_lines(flush(parse_lines(ls).hunks, parse_lines(ls).current)) <= body_line_count(ls),
    decreases ls.len(),
{
    if ls.len() > 0 {
        lemma_total_bounded(ls.drop_last());
        lemma_total_step(parse_lines(ls.drop_last()), ls.last());
    }
}

proof fn lemma_open_after_header(ls: Seq<Seq<char>>, j: int)
    requires
        0 <= j < ls.len(),
        is_hunk_header_line(ls[j]),
        forall|i: int| 0 <= i < ls.len() && is_hunk_header_line(#[trigger] ls[i]) ==> hunk_header_spec(ls[i]) is Some,
    ensures
        parse_lines(ls).current is Some,
    decreases ls.len(),
{
    let last = ls.last();
    let pre = ls.drop_last();
    if is_hunk_header_line(last) {
        assert(hunk_header_spec(ls[ls.len() - 1]) is Some);
    } else {
        assert(j < ls.len() - 1);
        assert(pre[j] == ls[j]);
        assert forall|i: int| 0 <= i < pre.len() && is_hunk_header_line(#[trigger] pre[i]) implies hunk_header_spec(pre[i]) is Some by {
            assert(pre[i] == ls[i]);
        }
        lemma_open_after_header(pre, j);
    }
}

proof fn lemma_total_exact(ls: Seq<Seq<char>>)
    requires
        well_headed(ls),
    ensures
        total_lines(flush(parse_lines(ls).hunks, parse_lines(ls).current)) == body_line_count(ls),
    decreases ls.len(),
{
    if ls.len() > 0 {
        let pre = ls.drop_last();
        assert(well_headed(pre)) by {
            assert forall|i: int| 0 <= i < pre.len() && is_hunk_header_line(#[trigger] pre[i]) implies hunk_header_spec(pre[i]) is Some by {
                assert(pre[i] == ls[i]);
            }
            assert forall|i: int| 0 <= i < pre.len() && is_body_line(#[trigger] pre[i]) implies exists|j: int| 0 <= j < i && is_hunk_header_line(#[trigger] pre[j]) by {
                assert(pre[i] == ls[i]);
                let j = choose|j: int| 0 <= j < i && is_hunk_header_line(#[trigger] ls[j]);
                assert(pre[j] == ls[j]);
            }
        }
        lemma_total_exact(pre);
        lemma_total_step(parse_lines(pre), ls.last());
        if is_body_line(ls.last()) {
            let k = ls.len() - 1;
            assert(is_body_line(ls[k]));
            let j = choose|j: int| 0 <= j < k && is_hunk_header_line(#[trigger] ls[j]);
            assert(pre[j] == ls[j]);
            lemma_open_after_header(pre, j);
        }
    }
}

/// Each line of the parsed hunks comes from one line of the diff that stands for a
/// hunk line (a `+`, `-`, space or other line that is no header and no
/// `\ No newline at end of file` marker): the hunks never hold more lines than
/// the diff has such lines, and exactly as many when every hunk header can be read
/// and no such line comes before the first hunk header.
pub proof fn law_parsed_lines_come_from_body_lines(diff: Seq<char>)
    ensures
        total_lines(diff_spec(diff)) <= body_line_count(lines(diff)),
        well_headed(lines(diff)) ==> total_lines(diff_spec(diff)) == body_line_count(lines(diff)),
{
    lemma_total_bounded(lines(diff));
    if well_headed(lines(diff)) {
        lemma_total_exact(lines(diff));
    }
}

/// The value of an optional hunk.
pub open spec fn opt_hunk_view(o: Option<DiffHunk>) -> Option<DiffHunkView> {
    match o {
        Some(h) => Some(h@),
        None => None,
    }
}

proof fn lemma_hunks_view_push(hs: Seq<DiffHunk>, h: DiffHunk)
    ensures
        hunks_view(hs.push(h)) == hunks_view(hs).push(h@),
{
    assert(hunks_view(hs.push(h)) =~= hunks_view(hs).push(h@));
}

/// Parses `"1,5"` or `"1"` into (start, count).
pub fn parse_range(range: &[char]) -> (r: Option<(u32, u32)>)
    ensures
        r == range_spec(range@),
{
    let _n = range.len();
    let comma: Vec<char> = vec![','];
    assert(comma@ =~= seq![',']);
    match find_exec(range, comma.as_slice()) {
        Some(i) => {
            proof {
                lemma_find_first_some(range@, comma@);
            }
            let a = slice_chars(range, 0, i);
            let b = slice_chars(range, i + 1, range.len());
            assert(a@ =~= range@.take(i as int));
            assert(b@ =~= range@.skip(i + 1));
            match (parse_u32_exec(a.as_slice()), parse_u32_exec(b.as_slice())) {
                (Some(x), Some(y)) => Some((x, y)),
                _ => None,
            }
        },
        None => match parse_u32_exec(range) {
            Some(x) => Some((x, 1)),
            None => None,
        },
    }
}

/// Parses the numbers of a hunk header given as characters.
pub fn parse_hunk_header_chars(line: &[char]) -> (r: Option<(u32, u32, u32, u32)>)
    ensures
        r == hunk_header_spec(line@),
{
    let open = chars_of("@@ ");
    let close = chars_of(" @@");
    proof {
        reveal_strlit("@@ ");
        reveal_strlit(" @@");
    }
    let t1 = trim_start_matches_exec(line, open.as_slice());
    let t2 = trim_end_matches_exec(t1.as_slice(), close.as_slice());
    let body = match find_exec(t2.as_slice(), close.as_slice()) {
        Some(i) => slice_chars(t2.as_slice(), 0, i),
        None => t2,
    };
    assert(body@ == header_body(line@));
    let parts = words_exec(body.as_slice());
    if parts.len() < 2 {
        return None;
    }
    let dash: Vec<char> = vec!['-'];
    let plus: Vec<char> = vec!['+'];
    assert(dash@ =~= seq!['-']);
    assert(plus@ =~= seq!['+']);
    let old_part = trim_start_matches_exec(parts[0].as_slice(), dash.as_slice());
    let new_part = trim_start_matches_exec(parts[1].as_slice(), plus.as_slice());
    assert(parts@[0]@ == words(header_body(line@))[0]);
    assert(parts@[1]@ == words(header_body(line@))[1]);
    match (parse_range(old_part.as_slice()), parse_range(new_part.as_slice())) {
        (Some((a, b)), Some((c, d))) => Some((a, b, c, d)),
        _ => None,
    }
}

/// Parses "@@ -1,5 +1,6 @@" or "@@ -1 +1,2 @@" into (old start, old count,
/// new start, new count); trailing context after the closing `@@` is ignored.
pub fn parse_hunk_header(line: &str) -> (r: Option<(u32, u32, u32, u32)>)
    ensures
        r == hunk_header_spec(line@),
{
    let v = chars_of(line);
    parse_hunk_header_chars(v.as_slice())
}

/// Whether `line` is one of the file header lines that the parser skips.
fn is_file_header_exec(line: &[char]) -> (r: bool)
    ensures
        r == is_file_header(line@),
{
    starts_with_str(line, "diff --git") || starts_with_str(line, "index ")
        || starts_with_str(line, "--- ") || starts_with_str(line, "+++ ")
}

/// The line number after `n`.
fn next_no_exec(n: u32) -> (r: u32)
    ensures
        r == next_no(n),
{
    if n == u32::MAX {
        0
    } else {
        n + 1
    }
}

/// Builds the hunk line for a body line.
fn body_line_exec(line: &[char], old_no: u32, new_no: u32) -> (r: DiffLine)
    requires
        line@.len() > 0,
    ensures
        r@ == body_line(line@, old_no, new_no),
{
    let first = line[0];
    let (kind, content) = if first == '+' {
        (LineKind::Addition, slice_chars(line, 1, line.len()))
    } else if first == '-' {
        (LineKind::Deletion, slice_chars(line, 1, line.len()))
    } else if first == ' ' {
        (LineKind::Context, slice_chars(line, 1, line.len()))
    } else {
        (LineKind::Context, slice_chars(line, 0, line.len()))
    };
    assert(line@.subrange(1, line@.len() as int) =~= line@.drop_first());
    assert(line@.subrange(0, line@.len() as int) =~= line@);
    let old_line_no = match kind {
        LineKind::Addition => None,
        _ => Some(old_no),
    };
    let new_line_no = match kind {
        LineKind::Deletion => None,
        _ => Some(new_no),
    };
    DiffLine {
        kind,
        old_line_no,
        new_line_no,
        content: string_of(content.as_slice()),
        highlighted: None,
    }
}

/// Parses the output of `git diff` into hunks.
///
/// File header lines are skipped, each `@@` header opens a new hunk (a header
/// that does not parse closes the open hunk without opening another), lines
/// outside any hunk are ignored, `\ No newline at end of file` markers and empty
/// lines are skipped, and each body line gets the old and new line numbers that
/// it occupies.
pub fn parse_unified_diff(diff_output: &str) -> (hunks: Vec<DiffHunk>)
    ensures
        hunks_view(hunks@) == diff_spec(diff_output@),
{
    let text = chars_of(diff_output);
    let ls = lines_exec(text.as_slice());
    let ghost lsv = vecs_view(ls@);
    let mut hunks: Vec<DiffHunk> = Vec::new();
    let mut current: Option<DiffHunk> = None;
    let mut old_line_no: u32 = 0;
    let mut new_line_no: u32 = 0;
    let mut i: usize = 0;
    assert(lsv.take(0) =~= Seq::<Seq<char>>::empty());
    assert(hunks_view(hunks@) =~= Seq::<DiffHunkView>::empty());
    while i < ls.len()
        invariant
            i <= ls@.len(),
            lsv == vecs_view(ls@),
            lsv.len() == ls@.len(),
            parse_lines(lsv.take(i as int)) == (ParseState {
                hunks: hunks_view(hunks@),
                current: opt_hunk_view(current),
                old_no: old_line_no,
                new_no: new_line_no,
            }),
        decreases ls@.len() - i,
    {
        let line = ls[i].as_slice();
        proof {
            assert(lsv.take(i + 1).drop_last() =~= lsv.take(i as int));
            assert(lsv.take(i + 1).last() == line@);
        }
        if is_file_header_exec(line) {
        } else if starts_with_str(line, "@@") {
            match current.take() {
                Some(h) => {
                    proof {
                        lemma_hunks_view_push(hunks@, h);
                    }
                    hunks.push(h);
                },
                None => {},
            }
            match parse_hunk_header_chars(line) {
                Some((a, b, c, d)) => {
                    old_line_no = a;
                    new_line_no = c;
                    let empty: Vec<DiffLine> = Vec::new();
                    current = Some(
                        DiffHunk { old_start: a, old_lines: b, new_start: c, new_lines: d, lines: empty },
                    );
                    proof {
                        assert(current.unwrap()@.lines =~= Seq::<DiffLineView>::empty());
                    }
                },
                None => {},
            }
        } else if current.is_some() && line.len() > 0 && line[0] != '\\' {
            let mut h = current.take().unwrap();
            let dl = body_line_exec(line, old_line_no, new_line_no);
            let kind = dl.kind;
            let ghost before = h@;
            h.lines.push(dl);
            proof {
                assert(h@.lines =~= before.lines.push(dl@));
            }
            current = Some(h);
            if kind != LineKind::Addition {
                old_line_no = next_no_exec(old_line_no);
            }
            if kind != LineKind::Deletion {
                new_line_no = next_no_exec(new_line_no);
            }
        }
        i = i + 1;
    }
    assert(lsv.take(ls@.len() as int) =~= lsv);
    match current {
        Some(h) => {
            proof {
                lemma_hunks_view_push(hunks@, h);
            }
            hunks.push(h);
        },
        None => {},
    }
    hunks
}

} // verus!
