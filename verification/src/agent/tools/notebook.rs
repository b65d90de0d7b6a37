//! What the notebook tools decide: how cells are shown, and which change an edit
//! makes to the list of cells.
use vstd::prelude::*;

use crate::agent::error::AgentError;
use crate::text::{
    chars_of, decimal, decimal_exec, join, join_exec, lines, lines_exec, owned, push_all, push_str,
    str_eq, string_of, strings_view, vecs_view,
};

verus! {

broadcast use vstd::string::group_string_axioms;

/// The source of a cell as stored: a list of pieces (each a string, or some other
/// value), a single string, or anything else.
#[derive(Debug, Clone)]
pub enum CellSource {
    Pieces(Vec<Option<String>>),
    Text(String),
    Missing,
}

/// A cell of a notebook: its type, when it is a string, and its source.
#[derive(Debug, Clone)]
pub struct NotebookCell {
    pub cell_type: Option<String>,
    pub source: CellSource,
}

/// The string pieces of a source, in order, leaving out the other values.
pub open spec fn string_pieces(ps: Seq<Option<String>>) -> Seq<char>
    decreases ps.len(),
{
    if ps.len() == 0 {
        seq![]
    } else {
        string_pieces(ps.drop_last()) + match ps.last() {
            Some(s) => s@,
            None => seq![],
        }
    }
}

/// The text of a cell's source.
pub open spec fn source_text(s: CellSource) -> Seq<char> {
    match s {
        CellSource::Pieces(ps) => string_pieces(ps@),
        CellSource::Text(t) => t@,
        CellSource::Missing => seq![],
    }
}

/// How cell `i` is shown: a header with its number and type, then its source.
pub open spec fn cell_text(i: nat, c: NotebookCell) -> Seq<char> {
    "--- Cell "@ + decimal(i) + " ("@ + match c.cell_type {
        Some(t) => t@,
        None => "unknown"@,
    } + ") ---\n"@ + source_text(c.source)
}

/// How the cells are shown, in order.
pub open spec fn cell_texts(cells: Seq<NotebookCell>) -> Seq<Seq<char>> {
    Seq::new(cells.len(), |i: int| cell_text(i as nat, cells[i]))
}

/// Shows the cells of a notebook, separated by blank lines; a notebook without a
/// list of cells is an error.
pub fn format_notebook(cells: Option<&Vec<NotebookCell>>) -> (r: Result<String, AgentError>)
    ensures
        match cells {
            Some(cs) => r matches Ok(s) && s@ == join(cell_texts(cs@), "\n\n"@),
            None => r matches Err(e) && (e matches AgentError::ToolExecutionError(m) && m@
                == "Notebook has no cells array"@),
        },
{
    let cs = match cells {
        Some(cs) => cs,
        None => {
            return Err(AgentError::ToolExecutionError(owned("Notebook has no cells array")));
        },
    };
    let ghost want = cell_texts(cs@);
    let mut parts: Vec<Vec<char>> = Vec::new();
    let mut i: usize = 0;
    while i < cs.len()
        invariant
            i <= cs@.len(),
            want == cell_texts(cs@),
            vecs_view(parts@) == want.take(i as int),
        decreases cs@.len() - i,
    {
        let c = &cs[i];
        let mut t = chars_of("--- Cell ");
        let d = decimal_exec(i as u64);
        push_all(&mut t, d.as_slice());
        push_str(&mut t, " (");
        match &c.cell_type {
            Some(ct) => push_str(&mut t, ct.as_str()),
            None => push_str(&mut t, "unknown"),
        }
        push_str(&mut t, ") ---\n");
        let ghost head = t@;
        match &c.source {
            CellSource::Pieces(ps) => {
                let mut k: usize = 0;
                assert(ps@.take(0) =~= Seq::<Option<String>>::empty());
                while k < ps.len()
                    invariant
                        k <= ps@.len(),
                        t@ == head + string_pieces(ps@.take(k as int)),
                    decreases ps@.len() - k,
                {
                    assert(ps@.take(k + 1).drop_last() =~= ps@.take(k as int));
                    match &ps[k] {
                        Some(piece) => push_str(&mut t, piece.as_str()),
                        None => {},
                    }
                    assert(t@ =~= head + string_pieces(ps@.take(k + 1)));
                    k = k + 1;
                }
                assert(ps@.take(ps@.len() as int) =~= ps@);
            },
            CellSource::Text(s) => push_str(&mut t, s.as_str()),
            CellSource::Missing => {},
        }
        assert(t@ =~= want[i as int]);
        let ghost before = parts@;
        parts.push(t);
        assert(vecs_view(parts@) =~= vecs_view(before).push(want[i as int]));
        assert(want.take(i + 1) =~= want.take(i as int).push(want[i as int]));
        i = i + 1;
    }
    assert(want.take(cs@.len() as int) =~= want);
    let sep = chars_of("\n\n");
    let r = join_exec(&parts, sep.as_slice());
    Ok(string_of(r.as_slice()))
}

/// The change that an edit makes to the list of cells.
#[derive(Debug, Clone)]
pub enum NotebookEdit {
    /// The source of cell `index` becomes `source`.
    Replace { index: usize, source: Vec<String> },
    /// A new cell of type `cell_type` with `source` goes at `at`, or at the end
    /// when `at` is `None`.
    Insert { at: Option<usize>, cell_type: String, source: Vec<String> },
    /// Cell `index` is removed.
    Delete { index: usize },
}

/// The source of an edited cell: each line of the new source with a newline.
pub open spec fn source_lines(new_source: Seq<char>) -> Seq<Seq<char>> {
    lines(new_source).map_values(|l: Seq<char>| l + "\n"@)
}

/// The message when a cell does not exist.
pub open spec fn missing_cell_message(index: nat, count: nat) -> Seq<char> {
    "Cell "@ + decimal(index) + " does not exist (notebook has "@ + decimal(count) + " cells)"@
}

/// The mode of an edit: the one given, else `replace`.
pub open spec fn edit_mode_of(mode: Option<Seq<char>>) -> Seq<char> {
    match mode {
        Some(m) => m,
        None => "replace"@,
    }
}

fn source_lines_exec(new_source: &str) -> (r: Vec<String>)
    ensures
        strings_view(r@) == source_lines(new_source@),
{
    let sv = chars_of(new_source);
    let ls = lines_exec(sv.as_slice());
    let ghost want = source_lines(new_source@);
    let mut r: Vec<String> = Vec::new();
    let mut i: usize = 0;
    while i < ls.len()
        invariant
            i <= ls@.len(),
            vecs_view(ls@) == lines(new_source@),
            want == source_lines(new_source@),
            strings_view(r@) == want.take(i as int),
        decreases ls@.len() - i,
    {
        let mut l = crate::text::slice_chars(ls[i].as_slice(), 0, ls[i].len());
        push_str(&mut l, "\n");
        assert(ls@[i as int]@.subrange(0, ls@[i as int]@.len() as int) =~= ls@[i as int]@);
        let ghost before = r@;
        r.push(string_of(l.as_slice()));
        assert(strings_view(r@) =~= strings_view(before).push(want[i as int]));
        assert(want.take(i + 1) =~= want.take(i as int).push(want[i as int]));
        i = i + 1;
    }
    assert(want.take(ls@.len() as int) =~= want);
    r
}

fn missing_cell(index: usize, count: usize) -> (r: AgentError)
    ensures
        r matches AgentError::ToolExecutionError(m) && m@ == missing_cell_message(
            index as nat,
            count as nat,
        ),
{
    let mut m = chars_of("Cell ");
    let a = decimal_exec(index as u64);
    push_all(&mut m, a.as_slice());
    push_str(&mut m, " does not exist (notebook has ");
    let b = decimal_exec(count as u64);
    push_all(&mut m, b.as_slice());
    push_str(&mut m, " cells)");
    AgentError::ToolExecutionError(string_of(m.as_slice()))
}

/// Decides the change of a notebook edit on a notebook of `cell_count` cells:
/// `replace` (the default) and `delete` need an existing cell; `insert` puts a new
/// cell (of the given type, `code` by default) at the position, or at the end when
/// the position is past it; any other mode is an error.
pub fn plan_notebook_edit(
    edit_mode: Option<&str>,
    cell_number: u32,
    cell_count: usize,
    new_source: &str,
    cell_type: Option<&str>,
) -> (r: Result<NotebookEdit, AgentError>)
    ensures
        ({
            let mode = edit_mode_of(crate::text::opt_str_view(edit_mode));
            let idx = cell_number as nat;
            if mode == "replace"@ {
                if idx >= cell_count {
                    r matches Err(e) && (e matches AgentError::ToolExecutionError(m) && m@
                        == missing_cell_message(idx, cell_count as nat))
                } else {
                    r matches Ok(NotebookEdit::Replace { index, source }) && index == idx
                        && strings_view(source@) == source_lines(new_source@)
                }
            } else if mode == "insert"@ {
                r matches Ok(NotebookEdit::Insert { at, cell_type: t, source }) && (if idx
                    > cell_count {
                    at is None
                } else {
                    at == Some(idx as usize)
                }) && t@ == inserted_cell_type(crate::text::opt_str_view(cell_type))
                    && strings_view(source@) == source_lines(new_source@)
            } else if mode == "delete"@ {
                if idx >= cell_count {
                    r matches Err(e) && (e matches AgentError::ToolExecutionError(m) && m@
                        == missing_cell_message(idx, cell_count as nat))
                } else {
                    r matches Ok(NotebookEdit::Delete { index }) && index == idx
                }
            } else {
                r matches Err(e) && (e matches AgentError::InvalidToolInput(m) && m@
                    == "Unknown edit_mode: "@ + mode)
            }
        }),
{
    let mode: &str = match edit_mode {
        Some(m) => m,
        None => "replace",
    };
    let idx = cell_number as usize;
    if str_eq(mode, "replace") {
        if idx >= cell_count {
            return Err(missing_cell(idx, cell_count));
        }
        Ok(NotebookEdit::Replace { index: idx, source: source_lines_exec(new_source) })
    } else if str_eq(mode, "insert") {
        let t: &str = match cell_type {
            Some(t) => t,
            None => "code",
        };
        let at = if idx > cell_count {
            None
        } else {
            Some(idx)
        };
        Ok(NotebookEdit::Insert { at, cell_type: owned(t), source: source_lines_exec(new_source) })
    } else if str_eq(mode, "delete") {
        if idx >= cell_count {
            return Err(missing_cell(idx, cell_count));
        }
        Ok(NotebookEdit::Delete { index: idx })
    } else {
        let mut m = chars_of("Unknown edit_mode: ");
        push_str(&mut m, mode);
        Err(AgentError::InvalidToolInput(string_of(m.as_slice())))
    }
}

/// The type of an inserted cell: the one given, else `code`.
pub open spec fn inserted_cell_type(t: Option<Seq<char>>) -> Seq<char> {
    match t {
        Some(x) => x,
        None => "code"@,
    }
}

/// The report of a successful notebook edit.
pub fn notebook_edit_message(mode: &str, index: u32, path: &str) -> (r: String)
    ensures
        r@ == "Successfully "@ + mode@ + " cell "@ + decimal(index as nat) + " in "@ + path@,
{
    let mut m = chars_of("Successfully ");
    push_str(&mut m, mode);
    push_str(&mut m, " cell ");
    let d = decimal_exec(index as u64);
    push_all(&mut m, d.as_slice());
    push_str(&mut m, " in ");
    push_str(&mut m, path);
    string_of(m.as_slice())
}

} // verus!
