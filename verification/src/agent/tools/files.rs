//! What the file tools compute once the file system has been read: the lines a
//! read returns, the text an edit produces, how a directory listing is ordered,
//! which glob matches are reported, and what a search reports.
use vstd::prelude::*;
use vstd::relations::sorted_by;

use super::types::EditOperation;
use crate::agent::error::AgentError;
use crate::text::{
    chars_of, contains, contains_exec, decimal, decimal_exec, join, join_exec, lines, lines_exec,
    owned, push_all, push_str, replace_every, replace_every_exec, replace_first,
    replace_first_exec, string_of, strings_view, vecs_view,
};
use crate::bindings::{regex_error, regex_is_match, regex_match_lines};
use crate::text_order::{sort_strings, str_order};

verus! {

broadcast use vstd::string::group_string_axioms;

/// The lines `offset..offset + limit` of a list, clamped to its length.
pub open spec fn line_window(ls: Seq<Seq<char>>, offset: nat, limit: nat) -> Seq<Seq<char>> {
    let start = if offset < ls.len() {
        offset
    } else {
        ls.len()
    };
    let end = if start + limit < ls.len() {
        start + limit
    } else {
        ls.len()
    };
    ls.subrange(start as int, end as int)
}

/// What reading a file returns: its lines from `offset` (default 0), at most `limit`
/// of them (default all), joined by newlines.
pub open spec fn read_window(content: Seq<char>, offset: Option<u32>, limit: Option<u32>) -> Seq<
    char,
> {
    let ls = lines(content);
    let off: nat = match offset {
        Some(o) => o as nat,
        None => 0,
    };
    let lim: nat = match limit {
        Some(l) => l as nat,
        None => ls.len(),
    };
    join(line_window(ls, off, lim), "\n"@)
}

/// The part of a file that a read returns.
pub fn select_lines(content: &str, offset: Option<u32>, limit: Option<u32>) -> (r: String)
    ensures
        r@ == read_window(content@, offset, limit),
{
    let cv = chars_of(content);
    let ls = lines_exec(cv.as_slice());
    let ghost lv = vecs_view(ls@);
    let n = ls.len();
    let off: usize = match offset {
        Some(o) => o as usize,
        None => 0,
    };
    let lim: usize = match limit {
        Some(l) => l as usize,
        None => n,
    };
    let start = if off < n {
        off
    } else {
        n
    };
    let end = if lim < n - start {
        start + lim
    } else {
        n
    };
    let mut window: Vec<Vec<char>> = Vec::new();
    let mut i = start;
    while i < end
        invariant
            start <= i <= end <= n,
            n == ls@.len(),
            lv == vecs_view(ls@),
            vecs_view(window@) == lv.subrange(start as int, i as int),
        decreases end - i,
    {
        let ghost before = window@;
        window.push(crate::text::slice_chars(ls[i].as_slice(), 0, ls[i].len()));
        assert(ls@[i as int]@.subrange(0, ls@[i as int]@.len() as int) =~= ls@[i as int]@);
        assert(vecs_view(window@) =~= vecs_view(before).push(lv[i as int]));
        assert(lv.subrange(start as int, i + 1) =~= lv.subrange(start as int, i as int).push(
            lv[i as int],
        ));
        i = i + 1;
    }
    let sep = chars_of("\n");
    let r = join_exec(&window, sep.as_slice());
    string_of(r.as_slice())
}

/// What an edit gives: nothing when `old` does not occur, else the text with every
/// occurrence replaced (`replace_all`) or the first one.
pub open spec fn edited(content: Seq<char>, old: Seq<char>, new: Seq<char>, replace_all: bool) -> Option<
    Seq<char>,
> {
    if !contains(content, old) {
        None
    } else if replace_all {
        Some(replace_every(content, old, new))
    } else {
        Some(replace_first(content, old, new))
    }
}

/// The message when the text to replace is missing.
pub open spec fn old_text_missing() -> Seq<char> {
    "old_text not found in file"@
}

/// Replaces text in a file's content: every occurrence of `old_text` when
/// `replace_all` is set, else the first; an error when it does not occur.
pub fn apply_edit(content: &str, old_text: &str, new_text: &str, replace_all: Option<bool>) -> (r:
    Result<String, AgentError>)
    ensures
        match r {
            Ok(s) => edited(
                content@,
                old_text@,
                new_text@,
                replace_all == Some(true),
            ) == Some(s@),
            Err(e) => edited(content@, old_text@, new_text@, replace_all == Some(true)) is None
                && (e matches AgentError::ToolExecutionError(m) && m@ == old_text_missing()),
        },
{
    let cv = chars_of(content);
    let ov = chars_of(old_text);
    let nv = chars_of(new_text);
    if !contains_exec(cv.as_slice(), ov.as_slice()) {
        return Err(AgentError::ToolExecutionError(owned("old_text not found in file")));
    }
    let all = match replace_all {
        Some(b) => b,
        None => false,
    };
    let r = if all {
        replace_every_exec(cv.as_slice(), ov.as_slice(), nv.as_slice())
    } else {
        replace_first_exec(cv.as_slice(), ov.as_slice(), nv.as_slice())
    };
    Ok(string_of(r.as_slice()))
}

/// The values of edit operations: (old text, new text).
pub open spec fn edits_view(v: Seq<EditOperation>) -> Seq<(Seq<char>, Seq<char>)> {
    v.map_values(|e: EditOperation| (e.old_text@, e.new_text@))
}

/// What applying edits in order gives: the text after each edit replaced the first
/// occurrence of its old text, or the position of the first edit whose old text was
/// missing.
pub open spec fn multi_edited(content: Seq<char>, edits: Seq<(Seq<char>, Seq<char>)>) -> Result<
    Seq<char>,
    nat,
>
    decreases edits.len(),
{
    if edits.len() == 0 {
        Ok(content)
    } else {
        match multi_edited(content, edits.drop_last()) {
            Err(k) => Err(k),
            Ok(c) => if contains(c, edits.last().0) {
                Ok(replace_first(c, edits.last().0, edits.last().1))
            } else {
                Err((edits.len() - 1) as nat)
            },
        }
    }
}

/// The message when edit number `k` (counting from 1) found no old text.
pub open spec fn edit_failed_message(k: nat) -> Seq<char> {
    "Edit "@ + decimal(k) + " failed: old_text not found in file"@
}

/// Applies edits in order, each replacing the first occurrence of its old text in
/// the result of the edits before it; fails at the first edit whose old text is
/// missing.
pub fn apply_edits(content: &str, edits: &Vec<EditOperation>) -> (r: Result<String, AgentError>)
    ensures
        match r {
            Ok(s) => multi_edited(content@, edits_view(edits@)) == Ok::<Seq<char>, nat>(s@),
            Err(e) => exists|k: nat|
                multi_edited(content@, edits_view(edits@)) == Err::<Seq<char>, nat>(k) && (
                e matches AgentError::ToolExecutionError(m) && m@ == edit_failed_message(k + 1)),
        },
{
    let ghost ev = edits_view(edits@);
    let mut result = chars_of(content);
    let mut i: usize = 0;
    while i < edits.len()
        invariant
            i <= edits@.len(),
            ev == edits_view(edits@),
            multi_edited(content@, ev.take(i as int)) == Ok::<Seq<char>, nat>(result@),
        decreases edits@.len() - i,
    {
        let ghost before = result@;
        assert(ev.take(i + 1).drop_last() =~= ev.take(i as int));
        let old = chars_of(edits[i].old_text.as_str());
        if !contains_exec(result.as_slice(), old.as_slice()) {
            let mut m = chars_of("Edit ");
            let d = decimal_exec((i + 1) as u64);
            push_all(&mut m, d.as_slice());
            push_str(&mut m, " failed: old_text not found in file");
            proof {
                lemma_multi_edited_prefix_err(content@, ev, i + 1);
            }
            return Err(AgentError::ToolExecutionError(string_of(m.as_slice())));
        }
        let new = chars_of(edits[i].new_text.as_str());
        result = replace_first_exec(result.as_slice(), old.as_slice(), new.as_slice());
        i = i + 1;
    }
    assert(ev.take(edits@.len() as int) =~= ev);
    Ok(string_of(result.as_slice()))
}

/// Once an edit fails, the later edits do not matter.
proof fn lemma_multi_edited_prefix_err(content: Seq<char>, ev: Seq<(Seq<char>, Seq<char>)>, k: int)
    requires
        0 < k <= ev.len(),
        multi_edited(content, ev.take(k)) is Err,
    ensures
        multi_edited(content, ev) == multi_edited(content, ev.take(k)),
    decreases ev.len() - k,
{
    if k < ev.len() {
        assert(ev.take(k + 1).drop_last() =~= ev.take(k));
        lemma_multi_edited_prefix_err(content, ev, k + 1);
    } else {
        assert(ev.take(k) =~= ev);
    }
}

/// The kind of a directory entry.
#[derive(Debug, Clone, Copy, PartialEq, Eq, Structural)]
pub enum EntryKind {
    Dir,
    File,
    Other,
    Unknown,
}

/// How an entry kind is written.
pub open spec fn kind_name(k: EntryKind) -> Seq<char> {
    match k {
        EntryKind::Dir => "dir"@,
        EntryKind::File => "file"@,
        EntryKind::Other => "other"@,
        EntryKind::Unknown => "unknown"@,
    }
}

/// How an entry is written: `name (kind)`.
pub open spec fn entry_label(name: Seq<char>, k: EntryKind) -> Seq<char> {
    name + " ("@ + kind_name(k) + ")"@
}

/// The labels of directory entries, in the order given.
pub open spec fn entry_labels(entries: Seq<(String, EntryKind)>) -> Seq<Seq<char>> {
    entries.map_values(|e: (String, EntryKind)| entry_label(e.0@, e.1))
}

fn kind_text(k: EntryKind) -> (r: &'static str)
    ensures
        r@ == kind_name(k),
{
    match k {
        EntryKind::Dir => "dir",
        EntryKind::File => "file",
        EntryKind::Other => "other",
        EntryKind::Unknown => "unknown",
    }
}

/// A directory listing: the entries as `name (kind)`, sorted, one per line.
pub fn directory_listing(entries: &Vec<(String, EntryKind)>) -> (r: String)
    ensures
        exists|s: Seq<Seq<char>>|
            sorted_by(s, str_order()) && s.to_multiset() == entry_labels(entries@).to_multiset()
                && r@ == join(s, "\n"@),
{
    let ghost want = entry_labels(entries@);
    let mut labels: Vec<String> = Vec::new();
    let mut i: usize = 0;
    while i < entries.len()
        invariant
            i <= entries@.len(),
            want == entry_labels(entries@),
            strings_view(labels@) == want.take(i as int),
        decreases entries@.len() - i,
    {
        let mut l = chars_of(entries[i].0.as_str());
        push_str(&mut l, " (");
        push_str(&mut l, kind_text(entries[i].1));
        push_str(&mut l, ")");
        let ghost before = labels@;
        labels.push(string_of(l.as_slice()));
        assert(strings_view(labels@) =~= strings_view(before).push(want[i as int]));
        assert(want.take(i + 1) =~= want.take(i as int).push(want[i as int]));
        i = i + 1;
    }
    assert(want.take(entries@.len() as int) =~= want);
    let sorted = sort_strings(labels);
    let mut parts: Vec<Vec<char>> = Vec::new();
    let mut j: usize = 0;
    while j < sorted.len()
        invariant
            j <= sorted@.len(),
            vecs_view(parts@) == strings_view(sorted@).take(j as int),
        decreases sorted@.len() - j,
    {
        let ghost before = parts@;
        parts.push(chars_of(sorted[j].as_str()));
        assert(vecs_view(parts@) =~= vecs_view(before).push(sorted@[j as int]@));
        assert(strings_view(sorted@).take(j + 1) =~= strings_view(sorted@).take(j as int).push(
            sorted@[j as int]@,
        ));
        j = j + 1;
    }
    assert(strings_view(sorted@).take(sorted@.len() as int) =~= strings_view(sorted@));
    let sep = chars_of("\n");
    let r = join_exec(&parts, sep.as_slice());
    string_of(r.as_slice())
}

/// The most glob matches reported.
pub const MAX_GLOB_RESULTS: usize = 1000;

/// A file matched by a glob: its modification time (nanoseconds from the Unix
/// epoch) and its path relative to the working directory, when it has one.
#[derive(Debug, Clone)]
pub struct GlobEntry {
    pub mtime: i128,
    pub relative: Option<String>,
}

/// The value of a glob match.
pub open spec fn glob_view(e: GlobEntry) -> (i128, Option<Seq<char>>) {
    (
        e.mtime,
        match e.relative {
            Some(p) => Some(p@),
            None => None,
        },
    )
}

/// The values of glob matches.
pub open spec fn globs_view(v: Seq<GlobEntry>) -> Seq<(i128, Option<Seq<char>>)> {
    v.map_values(|e: GlobEntry| glob_view(e))
}

/// Newer first.
pub open spec fn newer_first() -> spec_fn((i128, Option<Seq<char>>), (i128, Option<Seq<char>>)) -> bool {
    |a: (i128, Option<Seq<char>>), b: (i128, Option<Seq<char>>)| a.0 >= b.0
}

/// The relative paths of matches, in order, leaving out those without one.
pub open spec fn reported_paths(s: Seq<(i128, Option<Seq<char>>)>) -> Seq<Seq<char>>
    decreases s.len(),
{
    if s.len() == 0 {
        seq![]
    } else {
        match s.last().1 {
            Some(p) => reported_paths(s.drop_last()).push(p),
            None => reported_paths(s.drop_last()),
        }
    }
}

/// The number of matches kept: all of them, up to `MAX_GLOB_RESULTS`.
pub open spec fn kept_count(n: nat) -> nat {
    if n <= MAX_GLOB_RESULTS {
        n
    } else {
        MAX_GLOB_RESULTS as nat
    }
}

/// Lists glob matches newest first: the newest `MAX_GLOB_RESULTS` of them (among
/// equally new ones, any), one relative path per line.
pub fn glob_listing(entries: Vec<GlobEntry>) -> (r: String)
    ensures
        exists|s: Seq<(i128, Option<Seq<char>>)>|
            sorted_by(s, newer_first()) && s.to_multiset() == globs_view(entries@).to_multiset()
                && r@ == join(reported_paths(s.take(kept_count(entries@.len()) as int)), "\n"@),
{
    broadcast use vstd::seq_lib::group_to_multiset_ensures;

    let ghost input = globs_view(entries@);
    let mut out: Vec<GlobEntry> = Vec::new();
    let mut i: usize = 0;
    assert(input.take(0) =~= Seq::<(i128, Option<Seq<char>>)>::empty());
    assert(globs_view(out@) =~= Seq::<(i128, Option<Seq<char>>)>::empty());
    while i < entries.len()
        invariant
            i <= entries@.len(),
            input == globs_view(entries@),
            sorted_by(globs_view(out@), newer_first()),
            globs_view(out@).to_multiset() == input.take(i as int).to_multiset(),
            out@.len() == i,
        decreases entries@.len() - i,
    {
        let e = &entries[i];
        let ghost sv = globs_view(out@);
        let mut p: usize = 0;
        while p < out.len() && out[p].mtime >= e.mtime
            invariant
                p <= out@.len(),
                sv == globs_view(out@),
                forall|k: int| 0 <= k < p ==> (#[trigger] sv[k]).0 >= e.mtime,
            decreases out@.len() - p,
        {
            p = p + 1;
        }
        proof {
            if p < out@.len() {
                assert(sv[p as int].0 < e.mtime);
                assert forall|k: int| p <= k < sv.len() implies (#[trigger] sv[k]).0 < e.mtime by {
                    if k > p {
                        assert(newer_first()(sv[p as int], sv[k]));
                    }
                }
            }
        }
        let copy = GlobEntry {
            mtime: e.mtime,
            relative: match &e.relative {
                Some(path) => Some(crate::text::copy_string(path.as_str())),
                None => None,
            },
        };
        assert(glob_view(copy) == input[i as int]);
        out.insert(p, copy);
        proof {
            let nv = globs_view(out@);
            let x = input[i as int];
            assert(nv =~= sv.insert(p as int, x));
            vstd::seq_lib::to_multiset_insert(sv, p as int, x);
            assert(input.take(i + 1) =~= input.take(i as int).push(x));
            vstd::seq_lib::to_multiset_build(input.take(i as int), x);
            assert forall|a: int, b: int| 0 <= a < b < nv.len() implies newer_first()(
                #[trigger] nv[a],
                #[trigger] nv[b],
            ) by {
                if b < p {
                } else if b == p {
                    assert(nv[a] == sv[a]);
                } else if a == p {
                    assert(nv[b] == sv[b - 1]);
                } else if a < p {
                    assert(nv[a] == sv[a] && nv[b] == sv[b - 1]);
                } else {
                    assert(nv[a] == sv[a - 1] && nv[b] == sv[b - 1]);
                    assert(newer_first()(sv[a - 1], sv[b - 1]));
                }
            }
        }
        i = i + 1;
    }
    assert(input.take(entries@.len() as int) =~= input);
    let ghost sorted = globs_view(out@);
    let keep: usize = if out.len() <= MAX_GLOB_RESULTS {
        out.len()
    } else {
        MAX_GLOB_RESULTS
    };
    let mut parts: Vec<Vec<char>> = Vec::new();
    let mut j: usize = 0;
    while j < keep
        invariant
            j <= keep <= out@.len(),
            sorted == globs_view(out@),
            vecs_view(parts@) == reported_paths(sorted.take(j as int)),
        decreases keep - j,
    {
        assert(sorted.take(j + 1).drop_last() =~= sorted.take(j as int));
        match &out[j].relative {
            Some(path) => {
                let ghost before = parts@;
                parts.push(chars_of(path.as_str()));
                assert(vecs_view(parts@) =~= vecs_view(before).push(path@));
            },
            None => {},
        }
        j = j + 1;
    }
    let sep = chars_of("\n");
    let r = join_exec(&parts, sep.as_slice());
    string_of(r.as_slice())
}

/// The most search results reported.
pub const MAX_GREP_RESULTS: usize = 100;

/// A file to search: its path relative to the working directory and its text.
#[derive(Debug, Clone)]
pub struct GrepFile {
    pub path: String,
    pub content: String,
}

/// How a matching line is reported: `path:line number:line`.
pub open spec fn match_line(path: Seq<char>, number: nat, line: Seq<char>) -> Seq<char> {
    path + ":"@ + decimal(number) + ":"@ + line
}

/// The reports of the lines of a file that match, in order (line numbers from 1).
pub open spec fn line_matches(pattern: Seq<char>, path: Seq<char>, ls: Seq<Seq<char>>) -> Seq<
    Seq<char>,
>
    decreases ls.len(),
{
    if ls.len() == 0 {
        seq![]
    } else {
        line_matches(pattern, path, ls.drop_last()) + if regex_is_match(pattern, ls.last()) == Some(
            true,
        ) {
            seq![match_line(path, ls.len(), ls.last())]
        } else {
            seq![]
        }
    }
}

/// The values of the files searched: (path, text).
pub open spec fn grep_files_view(v: Seq<GrepFile>) -> Seq<(Seq<char>, Seq<char>)> {
    v.map_values(|f: GrepFile| (f.path@, f.content@))
}

/// The reports of every matching line of the files, file by file.
pub open spec fn all_matches(pattern: Seq<char>, files: Seq<(Seq<char>, Seq<char>)>) -> Seq<
    Seq<char>,
>
    decreases files.len(),
{
    if files.len() == 0 {
        seq![]
    } else {
        all_matches(pattern, files.drop_last()) + line_matches(
            pattern,
            files.last().0,
            lines(files.last().1),
        )
    }
}

/// The note that ends a capped search.
pub open spec fn grep_cap_note() -> Seq<char> {
    "... (truncated at 100 results)"@
}

/// What a search reports: the matching lines, capped at `MAX_GREP_RESULTS` and
/// then noted as capped, one per line; or that nothing matched.
pub open spec fn grep_report(pattern: Seq<char>, files: Seq<(Seq<char>, Seq<char>)>) -> Seq<char> {
    let all = all_matches(pattern, files);
    let shown = if all.len() >= MAX_GREP_RESULTS {
        all.take(MAX_GREP_RESULTS as int).push(grep_cap_note())
    } else {
        all
    };
    if shown.len() == 0 {
        "No matches found"@
    } else {
        join(shown, "\n"@)
    }
}

/// `a` is a prefix of `b`.
pub open spec fn prefix_of(a: Seq<Seq<char>>, b: Seq<Seq<char>>) -> bool {
    a.len() <= b.len() && b.take(a.len() as int) == a
}

proof fn lemma_prefix_trans(a: Seq<Seq<char>>, b: Seq<Seq<char>>, c: Seq<Seq<char>>)
    requires
        prefix_of(a, b),
        prefix_of(b, c),
    ensures
        prefix_of(a, c),
{
    assert(c.take(a.len() as int) =~= c.take(b.len() as int).take(a.len() as int));
}

proof fn lemma_prefix_append(a: Seq<Seq<char>>, b: Seq<Seq<char>>, x: Seq<Seq<char>>)
    requires
        prefix_of(a, b),
    ensures
        prefix_of(x + a, x + b),
{
    assert((x + b).take((x + a).len() as int) =~= x + b.take(a.len() as int));
}

proof fn lemma_line_matches_prefix(p: Seq<char>, path: Seq<char>, ls: Seq<Seq<char>>, k: int)
    requires
        0 <= k <= ls.len(),
    ensures
        prefix_of(line_matches(p, path, ls.take(k)), line_matches(p, path, ls)),
    decreases ls.len() - k,
{
    if k < ls.len() {
        lemma_line_matches_prefix(p, path, ls, k + 1);
        let t = ls.take(k + 1);
        assert(t.drop_last() =~= ls.take(k));
        let a = line_matches(p, path, ls.take(k));
        let b = line_matches(p, path, t);
        assert(b.take(a.len() as int) =~= a);
        lemma_prefix_trans(a, b, line_matches(p, path, ls));
    } else {
        assert(ls.take(k) =~= ls);
        let a = line_matches(p, path, ls);
        assert(a.take(a.len() as int) =~= a);
    }
}

proof fn lemma_all_matches_prefix(p: Seq<char>, fs: Seq<(Seq<char>, Seq<char>)>, f: int)
    requires
        0 <= f <= fs.len(),
    ensures
        prefix_of(all_matches(p, fs.take(f)), all_matches(p, fs)),
    decreases fs.len() - f,
{
    if f < fs.len() {
        lemma_all_matches_prefix(p, fs, f + 1);
        let t = fs.take(f + 1);
        assert(t.drop_last() =~= fs.take(f));
        let a = all_matches(p, fs.take(f));
        let b = all_matches(p, t);
        assert(b.take(a.len() as int) =~= a);
        lemma_prefix_trans(a, b, all_matches(p, fs));
    } else {
        assert(fs.take(f) =~= fs);
        let a = all_matches(p, fs);
        assert(a.take(a.len() as int) =~= a);
    }
}

fn strings_of_lines(ls: &Vec<Vec<char>>) -> (r: Vec<String>)
    ensures
        strings_view(r@) == vecs_view(ls@),
{
    let mut r: Vec<String> = Vec::new();
    let mut i: usize = 0;
    while i < ls.len()
        invariant
            i <= ls@.len(),
            strings_view(r@) == vecs_view(ls@).take(i as int),
        decreases ls@.len() - i,
    {
        let ghost before = r@;
        r.push(string_of(ls[i].as_slice()));
        assert(strings_view(r@) =~= strings_view(before).push(ls@[i as int]@));
        assert(vecs_view(ls@).take(i + 1) =~= vecs_view(ls@).take(i as int).push(ls@[i as int]@));
        i = i + 1;
    }
    assert(vecs_view(ls@).take(ls@.len() as int) =~= vecs_view(ls@));
    r
}

/// Searches the lines of files for a regular expression: reports each matching
/// line as `path:line:text`, at most `MAX_GREP_RESULTS` of them followed by a note
/// when there are that many, or says that nothing matched; a pattern that does not
/// compile is an error, whatever the files.
pub fn grep_files(pattern: &str, files: &Vec<GrepFile>) -> (r: Result<String, AgentError>)
    ensures
        r is Err <==> regex_is_match(pattern@, Seq::<char>::empty()) is None,
        match r {
            Ok(s) => s@ == grep_report(pattern@, grep_files_view(files@)),
            Err(e) => e matches AgentError::InvalidToolInput(m) && m@ == "Invalid regex: "@
                + regex_error(pattern@),
        },
{
    let none: Vec<String> = Vec::new();
    match regex_match_lines(pattern, &none) {
        Ok(_) => {},
        Err(m) => {
            let mut t = chars_of("Invalid regex: ");
            push_str(&mut t, m.as_str());
            return Err(AgentError::InvalidToolInput(string_of(t.as_slice())));
        },
    }
    let ghost fv = grep_files_view(files@);
    let ghost all = all_matches(pattern@, fv);
    let mut results: Vec<Vec<char>> = Vec::new();
    let mut capped = false;
    let mut f: usize = 0;
    while f < files.len() && !capped
        invariant
            regex_is_match(pattern@, Seq::<char>::empty()) is Some,
            f <= files@.len(),
            fv == grep_files_view(files@),
            all == all_matches(pattern@, fv),
            !capped ==> vecs_view(results@) == all_matches(pattern@, fv.take(f as int)),
            !capped ==> results@.len() < MAX_GREP_RESULTS,
            capped ==> vecs_view(results@) == all.take(MAX_GREP_RESULTS as int).push(
                grep_cap_note(),
            ),
            capped ==> all.len() >= MAX_GREP_RESULTS,
        decreases files@.len() - f,
    {
        let path = chars_of(files[f].path.as_str());
        let content = chars_of(files[f].content.as_str());
        let ls = lines_exec(content.as_slice());
        let ghost lv = vecs_view(ls@);
        let ghost base = vecs_view(results@);
        let texts = strings_of_lines(&ls);
        let hits = match regex_match_lines(pattern, &texts) {
            Ok(v) => v,
            Err(m) => {
                let mut t = chars_of("Invalid regex: ");
                push_str(&mut t, m.as_str());
                return Err(AgentError::InvalidToolInput(string_of(t.as_slice())));
            },
        };
        assert(fv.take(f + 1).drop_last() =~= fv.take(f as int));
        assert(fv[f as int] == (path@, content@));
        assert(strings_view(texts@).len() == texts@.len());
        assert(vecs_view(ls@).len() == ls@.len());
        assert(texts@.len() == ls@.len());
        let mut k: usize = 0;
        while k < ls.len() && !capped
            invariant
                regex_is_match(pattern@, Seq::<char>::empty()) is Some,
                k <= ls@.len(),
                lv == vecs_view(ls@),
                lv == lines(content@),
                hits@.len() == ls@.len(),
                texts@.len() == ls@.len(),
                strings_view(texts@) == lv,
                forall|i: int|
                    0 <= i < ls@.len() ==> regex_is_match(pattern@, #[trigger] texts@[i]@) == Some(
                        hits@[i],
                    ),
                base == all_matches(pattern@, fv.take(f as int)),
                fv.take(f + 1).drop_last() == fv.take(f as int),
                fv[f as int] == (path@, content@),
                all == all_matches(pattern@, fv),
                f < fv.len(),
                f < files@.len(),
                path@ == files@[f as int].path@,
                !capped ==> vecs_view(results@) == base + line_matches(
                    pattern@,
                    path@,
                    lv.take(k as int),
                ),
                !capped ==> results@.len() < MAX_GREP_RESULTS,
                capped ==> vecs_view(results@) == all.take(MAX_GREP_RESULTS as int).push(
                    grep_cap_note(),
                ),
                capped ==> all.len() >= MAX_GREP_RESULTS,
            decreases ls@.len() - k,
        {
            assert(lv.take(k + 1).drop_last() =~= lv.take(k as int));
            assert(strings_view(texts@)[k as int] == texts@[k as int]@);
            assert(texts@[k as int]@ == lv[k as int]);
            if hits[k] {
                let mut line = chars_of(files[f].path.as_str());
                push_str(&mut line, ":");
                let d = decimal_exec((k + 1) as u64);
                push_all(&mut line, d.as_slice());
                push_str(&mut line, ":");
                push_all(&mut line, ls[k].as_slice());
                assert(lv[k as int] == ls@[k as int]@);
                assert(path@ == files@[f as int].path@);
                assert(line@ =~= match_line(path@, (k + 1) as nat, lv[k as int]));
                let ghost before = vecs_view(results@);
                results.push(line);
                assert(vecs_view(results@) =~= before.push(
                    match_line(path@, (k + 1) as nat, lv[k as int]),
                ));
                assert(vecs_view(results@) =~= base + line_matches(
                    pattern@,
                    path@,
                    lv.take(k + 1),
                ));
                if results.len() >= MAX_GREP_RESULTS {
                    proof {
                        let cur = vecs_view(results@);
                        lemma_line_matches_prefix(pattern@, path@, lv, k + 1);
                        lemma_prefix_append(
                            line_matches(pattern@, path@, lv.take(k + 1)),
                            line_matches(pattern@, path@, lv),
                            base,
                        );
                        assert(all_matches(pattern@, fv.take(f + 1)) == base + line_matches(
                            pattern@,
                            path@,
                            lv,
                        ));
                        lemma_all_matches_prefix(pattern@, fv, f + 1);
                        lemma_prefix_trans(cur, all_matches(pattern@, fv.take(f + 1)), all);
                        assert(all.take(MAX_GREP_RESULTS as int) =~= cur);
                    }
                    let ghost before_note = vecs_view(results@);
                    results.push(chars_of("... (truncated at 100 results)"));
                    assert(vecs_view(results@) =~= before_note.push(grep_cap_note()));
                    capped = true;
                }
            } else {
                assert(vecs_view(results@) =~= base + line_matches(
                    pattern@,
                    path@,
                    lv.take(k + 1),
                ));
            }
            k = k + 1;
        }
        if !capped {
            assert(lv.take(ls@.len() as int) =~= lv);
            assert(vecs_view(results@) == all_matches(pattern@, fv.take(f + 1)));
        }
        f = f + 1;
    }
    proof {
        if !capped {
            assert(fv.take(files@.len() as int) =~= fv);
        }
    }
    if results.len() == 0 {
        return Ok(owned("No matches found"));
    }
    let sep = chars_of("\n");
    let r = join_exec(&results, sep.as_slice());
    Ok(string_of(r.as_slice()))
}

/// How many leading bytes of a file are looked at to tell whether it is binary.
pub const BINARY_CHECK_SIZE: usize = 1024;

/// A file is taken as binary when a NUL byte occurs among its first bytes.
pub open spec fn binary_head(head: Seq<u8>) -> bool {
    exists|i: int| 0 <= i < head.len() && i < BINARY_CHECK_SIZE && head[i] == 0
}

/// Whether a file whose first bytes are `head` is binary.
pub fn looks_binary(head: &[u8]) -> (r: bool)
    ensures
        r == binary_head(head@),
{
    let mut i: usize = 0;
    while i < head.len() && i < BINARY_CHECK_SIZE
        invariant
            i <= head@.len(),
            i <= BINARY_CHECK_SIZE,
            forall|j: int| 0 <= j < i ==> head@[j] != 0,
        decreases head@.len() - i,
    {
        if head[i] == 0 {
            return true;
        }
        i = i + 1;
    }
    false
}

/// Whether a file is searched: every file when no file-name pattern is given, else
/// those whose name matches it (none when the pattern does not compile).
pub fn included(file_pattern: Option<&str>, file_name: &str) -> (r: bool)
    ensures
        r == match file_pattern {
            None => true,
            Some(p) => crate::bindings::glob_matches(p@, file_name@) == Some(true),
        },
{
    match file_pattern {
        None => true,
        Some(p) => match crate::bindings::glob_match(p, file_name) {
            Some(b) => b,
            None => false,
        },
    }
}

} // verus!
