//! Highlighting a file's diff: the lines that remain are highlighted together as
//! the file they make up, and each removed line on its own.
use vstd::prelude::*;

use super::highlighter::{highlighted, lines_with_endings, Highlighter};
use super::types::{hunks_view, DiffHunk, DiffHunkView, DiffLine, DiffLineView, FileDiff, LineKind};
use crate::text::{chars_of, copy_string, join, join_exec, string_of, strings_view, vecs_view};

verus! {

broadcast use vstd::string::group_string_axioms;

/// The contents of the lines that are not removed, in order.
pub open spec fn kept_contents(ls: Seq<DiffLineView>) -> Seq<Seq<char>>
    decreases ls.len(),
{
    if ls.len() == 0 {
        seq![]
    } else if ls.last().kind == LineKind::Deletion {
        kept_contents(ls.drop_last())
    } else {
        kept_contents(ls.drop_last()).push(ls.last().content)
    }
}

/// All lines of hunks, in order.
pub open spec fn all_lines(hs: Seq<DiffHunkView>) -> Seq<DiffLineView>
    decreases hs.len(),
{
    if hs.len() == 0 {
        seq![]
    } else {
        all_lines(hs.drop_last()) + hs.last().lines
    }
}

/// The lines before line `l` of hunk `h`.
pub open spec fn lines_before(hs: Seq<DiffHunkView>, h: int, l: int) -> Seq<DiffLineView> {
    all_lines(hs.take(h)) + hs[h].lines.take(l)
}

/// The file the remaining lines make up: their contents joined by newlines.
pub open spec fn diff_source(hs: Seq<DiffHunkView>) -> Seq<char> {
    join(kept_contents(all_lines(hs)), "\n"@)
}

/// `hl` is the highlighting of `text` as a file with some extension: one entry per
/// line, each the line's HTML with the syntax that extension and the first line
/// select, or the line escaped.
pub open spec fn is_highlighting(text: Seq<char>, hl: Seq<Seq<char>>) -> bool {
    &&& hl.len() == lines_with_endings(text).len()
    &&& exists|extension: Seq<char>| hl == #[trigger] highlighted(extension, text)
}

/// A line after highlighting: unchanged but for its HTML; a remaining line that is
/// the `k`-th of them gets entry `k` of `hl` (none past its end); a removed line
/// gets the first entry of a highlighting of its own content (none when that has
/// no line).
pub open spec fn highlighted_as(a: DiffLineView, b: DiffLineView, k: nat, hl: Seq<Seq<char>>) -> bool {
    &&& b.kind == a.kind
    &&& b.old_line_no == a.old_line_no
    &&& b.new_line_no == a.new_line_no
    &&& b.content == a.content
    &&& if a.kind != LineKind::Deletion {
        b.highlighted == if k < hl.len() {
            Some(hl[k as int])
        } else {
            None
        }
    } else if lines_with_endings(a.content).len() == 0 {
        b.highlighted is None
    } else {
        exists|d: Seq<Seq<char>>| is_highlighting(a.content, d) && b.highlighted == Some(d[0])
    }
}

proof fn lemma_kept_push(s: Seq<DiffLineView>, x: DiffLineView)
    ensures
        kept_contents(s.push(x)) == if x.kind == LineKind::Deletion {
            kept_contents(s)
        } else {
            kept_contents(s).push(x.content)
        },
{
    assert(s.push(x).drop_last() =~= s);
}

proof fn lemma_before_next_hunk(hs: Seq<DiffHunkView>, h: int)
    requires
        0 <= h < hs.len(),
    ensures
        lines_before(hs, h + 1, 0) == lines_before(hs, h, hs[h].lines.len() as int),
        h + 1 == hs.len() ==> all_lines(hs) == lines_before(hs, h + 1, 0),
{
    assert(hs.take(h + 1).drop_last() =~= hs.take(h));
    assert(hs[h].lines.take(hs[h].lines.len() as int) =~= hs[h].lines);
    if h + 1 < hs.len() {
        assert(hs[h + 1].lines.take(0) =~= Seq::<DiffLineView>::empty());
        assert(lines_before(hs, h + 1, 0) =~= all_lines(hs.take(h + 1)));
    } else {
        assert(hs.take(h + 1) =~= hs);
    }
}

proof fn lemma_lines_before_step(hs: Seq<DiffHunkView>, h: int, l: int)
    requires
        0 <= h < hs.len(),
        0 <= l < hs[h].lines.len(),
    ensures
        lines_before(hs, h, l + 1) == lines_before(hs, h, l).push(hs[h].lines[l]),
{
    assert(hs[h].lines.take(l + 1) =~= hs[h].lines.take(l).push(hs[h].lines[l]));
    assert(lines_before(hs, h, l + 1) =~= lines_before(hs, h, l).push(hs[h].lines[l]));
}

proof fn lemma_lines_before_start(hs: Seq<DiffHunkView>)
    requires
        hs.len() > 0,
    ensures
        lines_before(hs, 0, 0) == Seq::<DiffLineView>::empty(),
{
    assert(hs.take(0) =~= Seq::<DiffHunkView>::empty());
    assert(hs[0].lines.take(0) =~= Seq::<DiffLineView>::empty());
    assert(lines_before(hs, 0, 0) =~= Seq::<DiffLineView>::empty());
}

fn source_of(hunks: &Vec<DiffHunk>) -> (r: String)
    ensures
        r@ == diff_source(hunks_view(hunks@)),
{
    let ghost hv = hunks_view(hunks@);
    let mut pieces: Vec<Vec<char>> = Vec::new();
    if hunks.len() == 0 {
        let sep = chars_of("\n");
        let r = join_exec(&pieces, sep.as_slice());
        assert(vecs_view(pieces@) =~= kept_contents(all_lines(hv)));
        return string_of(r.as_slice());
    }
    proof {
        lemma_lines_before_start(hv);
    }
    let mut h: usize = 0;
    while h < hunks.len()
        invariant
            0 < hunks@.len(),
            h <= hunks@.len(),
            hv == hunks_view(hunks@),
            h < hunks@.len() ==> vecs_view(pieces@) == kept_contents(lines_before(hv, h as int, 0)),
            h == hunks@.len() ==> vecs_view(pieces@) == kept_contents(all_lines(hv)),
        decreases hunks@.len() - h,
    {
        let lines = &hunks[h].lines;
        assert(hv[h as int].lines == lines@.map_values(|l: DiffLine| l@));
        let mut l: usize = 0;
        while l < lines.len()
            invariant
                h < hunks@.len(),
                l <= lines@.len(),
                hv == hunks_view(hunks@),
                lines == &hunks@[h as int].lines,
                hv[h as int].lines == lines@.map_values(|x: DiffLine| x@),
                vecs_view(pieces@) == kept_contents(lines_before(hv, h as int, l as int)),
            decreases lines@.len() - l,
        {
            proof {
                lemma_lines_before_step(hv, h as int, l as int);
                lemma_kept_push(lines_before(hv, h as int, l as int), hv[h as int].lines[l as int]);
            }
            let line = &lines[l];
            if line.kind != LineKind::Deletion {
                let ghost before = pieces@;
                pieces.push(chars_of(line.content.as_str()));
                assert(vecs_view(pieces@) =~= vecs_view(before).push(line.content@));
            }
            l = l + 1;
        }
        proof {
            lemma_before_next_hunk(hv, h as int);
        }
        h = h + 1;
    }
    let sep = chars_of("\n");
    let r = join_exec(&pieces, sep.as_slice());
    string_of(r.as_slice())
}

/// The smaller of two numbers.
pub open spec fn at_most(n: nat, m: nat) -> nat {
    if n < m {
        n
    } else {
        m
    }
}

fn highlight_hunk(
    highlighter: &Highlighter,
    hunk: &DiffHunk,
    path: &str,
    full: &Vec<String>,
    k0: usize,
    Ghost(before): Ghost<Seq<DiffLineView>>,
) -> (r: (Vec<DiffLine>, usize))
    requires
        k0 == at_most(kept_contents(before).len(), full@.len()),
    ensures
        r.0@.len() == hunk.lines@.len(),
        forall|j: int|
            0 <= j < hunk.lines@.len() ==> highlighted_as(
                #[trigger] hunk.lines@[j]@,
                r.0@[j]@,
                kept_contents(before + hunk@.lines.take(j)).len(),
                strings_view(full@),
            ),
        r.1 == at_most(kept_contents(before + hunk@.lines).len(), full@.len()),
{
    let ghost hl = strings_view(full@);
    let ghost lv = hunk@.lines;
    let mut k = k0;
    let mut lines: Vec<DiffLine> = Vec::new();
    let mut l: usize = 0;
    assert(lv.take(0) =~= Seq::<DiffLineView>::empty());
    assert(before + lv.take(0) =~= before);
    while l < hunk.lines.len()
        invariant
            l <= hunk.lines@.len(),
            lv == hunk@.lines,
            lv == hunk.lines@.map_values(|x: DiffLine| x@),
            hl == strings_view(full@),
            lines@.len() == l,
            k == at_most(kept_contents(before + lv.take(l as int)).len(), full@.len()),
            forall|j: int|
                0 <= j < l ==> highlighted_as(
                    #[trigger] hunk.lines@[j]@,
                    lines@[j]@,
                    kept_contents(before + lv.take(j)).len(),
                    hl,
                ),
        decreases hunk.lines@.len() - l,
    {
        proof {
            assert(before + lv.take(l + 1) =~= (before + lv.take(l as int)).push(lv[l as int]));
            lemma_kept_push(before + lv.take(l as int), lv[l as int]);
        }
        let line = &hunk.lines[l];
        assert(line@ == lv[l as int]);
        let highlighted = if line.kind != LineKind::Deletion {
            if k < full.len() {
                let x = Some(copy_string(full[k].as_str()));
                k = k + 1;
                x
            } else {
                None
            }
        } else {
            let single = highlighter.highlight_lines(line.content.as_str(), path);
            if single.len() > 0 {
                proof {
                    assert(is_highlighting(line.content@, strings_view(single@)));
                }
                Some(copy_string(single[0].as_str()))
            } else {
                None
            }
        };
        let ghost prev = lines@;
        lines.push(
            DiffLine {
                kind: line.kind,
                old_line_no: line.old_line_no,
                new_line_no: line.new_line_no,
                content: copy_string(line.content.as_str()),
                highlighted,
            },
        );
        assert(forall|j: int| 0 <= j < l ==> lines@[j] == prev[j]);
        l = l + 1;
    }
    assert(lv.take(hunk.lines@.len() as int) =~= lv);
    (lines, k)
}

/// Adds highlighted HTML to the lines of a diff: the remaining lines are highlighted
/// together, as the file they make up, and take their HTML in order; each removed
/// line is highlighted alone.
pub fn apply_syntax_highlighting(highlighter: &Highlighter, diff: FileDiff) -> (r: FileDiff)
    ensures
        r.path@ == diff.path@,
        r.status == diff.status,
        r.hunks@.len() == diff.hunks@.len(),
        forall|h: int|
            0 <= h < diff.hunks@.len() ==> {
                let a = #[trigger] hunks_view(diff.hunks@)[h];
                let b = hunks_view(r.hunks@)[h];
                &&& b.old_start == a.old_start
                &&& b.old_lines == a.old_lines
                &&& b.new_start == a.new_start
                &&& b.new_lines == a.new_lines
                &&& b.lines.len() == a.lines.len()
            },
        exists|hl: Seq<Seq<char>>|
            #![trigger is_highlighting(diff_source(hunks_view(diff.hunks@)), hl)]
            is_highlighting(diff_source(hunks_view(diff.hunks@)), hl) && forall|h: int, l: int|
                0 <= h < diff.hunks@.len() && 0 <= l < hunks_view(diff.hunks@)[h].lines.len()
                    ==> highlighted_as(
                    #[trigger] hunks_view(diff.hunks@)[h].lines[l],
                    hunks_view(r.hunks@)[h].lines[l],
                    kept_contents(lines_before(hunks_view(diff.hunks@), h, l)).len(),
                    hl,
                ),
{
    let ghost hv = hunks_view(diff.hunks@);
    let source = source_of(&diff.hunks);
    let full = highlighter.highlight_lines(source.as_str(), diff.path.as_str());
    let ghost hl = strings_view(full@);
    assert(is_highlighting(diff_source(hv), hl));
    let mut out: Vec<DiffHunk> = Vec::new();
    if diff.hunks.len() > 0 {
        proof {
            lemma_lines_before_start(hv);
        }
    }
    let mut k: usize = 0;
    let mut h: usize = 0;
    while h < diff.hunks.len()
        invariant
            h <= diff.hunks@.len(),
            hv == hunks_view(diff.hunks@),
            hl == strings_view(full@),
            is_highlighting(diff_source(hv), hl),
            out@.len() == h,
            h < diff.hunks@.len() ==> k == at_most(
                kept_contents(lines_before(hv, h as int, 0)).len(),
                full@.len(),
            ),
            forall|g: int|
                0 <= g < h ==> {
                    let a = #[trigger] hv[g];
                    let b = hunks_view(out@)[g];
                    &&& b.old_start == a.old_start
                    &&& b.old_lines == a.old_lines
                    &&& b.new_start == a.new_start
                    &&& b.new_lines == a.new_lines
                    &&& b.lines.len() == a.lines.len()
                },
            forall|g: int, l: int|
                0 <= g < h && 0 <= l < hv[g].lines.len() ==> highlighted_as(
                    #[trigger] hv[g].lines[l],
                    hunks_view(out@)[g].lines[l],
                    kept_contents(lines_before(hv, g, l)).len(),
                    hl,
                ),
        decreases diff.hunks@.len() - h,
    {
        let hunk = &diff.hunks[h];
        let ghost start = lines_before(hv, h as int, 0);
        proof {
            assert(hv[h as int] == hunk@);
            assert(hv[h as int].lines.take(0) =~= Seq::<DiffLineView>::empty());
            assert forall|j: int| 0 <= j <= hunk@.lines.len() implies lines_before(hv, h as int, j)
                == start + hunk@.lines.take(j) by {
                assert(hv[h as int].lines.take(0) =~= Seq::<DiffLineView>::empty());
                assert(start =~= all_lines(hv.take(h as int)));
            }
        }
        let (lines, next_k) = highlight_hunk(
            highlighter,
            hunk,
            diff.path.as_str(),
            &full,
            k,
            Ghost(start),
        );
        let ghost before_out = out@;
        out.push(
            DiffHunk {
                old_start: hunk.old_start,
                old_lines: hunk.old_lines,
                new_start: hunk.new_start,
                new_lines: hunk.new_lines,
                lines,
            },
        );
        k = next_k;
        proof {
            lemma_before_next_hunk(hv, h as int);
            assert(hunk@.lines.take(hunk@.lines.len() as int) =~= hunk@.lines);
            assert(lines_before(hv, h as int, hunk@.lines.len() as int) == start + hunk@.lines.take(
                hunk@.lines.len() as int,
            ));
            assert(hunks_view(out@)[h as int].lines == lines@.map_values(|x: DiffLine| x@));
            assert forall|g: int| 0 <= g < h implies hunks_view(out@)[g] == hunks_view(
                before_out,
            )[g] by {}
            assert forall|l: int| 0 <= l < hv[h as int].lines.len() implies highlighted_as(
                #[trigger] hv[h as int].lines[l],
                hunks_view(out@)[h as int].lines[l],
                kept_contents(lines_before(hv, h as int, l)).len(),
                hl,
            ) by {
                assert(hunk.lines@[l]@ == hv[h as int].lines[l]);
            }
        }
        h = h + 1;
    }
    FileDiff { path: diff.path, status: diff.status, hunks: out }
}

} // verus!
