//! Data types of the git view: changed files, diffs, hunks and lines.
use vstd::prelude::*;

verus! {

/// What `GitService::check_repository` reports about a path.
#[derive(Debug, Clone)]
pub struct RepositoryCheckResult {
    pub is_repo: bool,
    pub exists: bool,
    pub is_dir: bool,
    pub error: Option<String>,
}

/// Status of a file in git (staged or unstaged).
#[derive(Debug, Clone, Copy, PartialEq, Eq, Structural)]
pub enum FileStatus {
    Added,
    Modified,
    Deleted,
    Renamed,
    Copied,
    Untracked,
}

/// A file with changes, tracking both staged (index) and unstaged (worktree) status.
#[derive(Debug, Clone)]
pub struct ChangedFile {
    pub path: String,
    /// Status of staged changes (in the index).
    pub index_status: Option<FileStatus>,
    /// Status of unstaged changes (in the working tree).
    pub worktree_status: Option<FileStatus>,
}

/// The diff of one file.
#[derive(Debug, Clone)]
pub struct FileDiff {
    pub path: String,
    pub status: FileStatus,
    pub hunks: Vec<DiffHunk>,
}

/// One `@@ ... @@` section of a unified diff.
#[derive(Debug, Clone)]
pub struct DiffHunk {
    pub old_start: u32,
    pub old_lines: u32,
    pub new_start: u32,
    pub new_lines: u32,
    pub lines: Vec<DiffLine>,
}

/// One line of a hunk.
#[derive(Debug, Clone)]
pub struct DiffLine {
    pub kind: LineKind,
    pub old_line_no: Option<u32>,
    pub new_line_no: Option<u32>,
    pub content: String,
    /// Syntax-highlighted HTML content (if available).
    pub highlighted: Option<String>,
}

/// Whether a diff line is unchanged, added or removed.
#[derive(Debug, Clone, Copy, PartialEq, Eq, Structural)]
pub enum LineKind {
    Context,
    Addition,
    Deletion,
}

/// The mathematical value of a [`DiffLine`].
pub struct DiffLineView {
    pub kind: LineKind,
    pub old_line_no: Option<u32>,
    pub new_line_no: Option<u32>,
    pub content: Seq<char>,
    pub highlighted: Option<Seq<char>>,
}

/// The mathematical value of a [`DiffHunk`].
pub struct DiffHunkView {
    pub old_start: u32,
    pub old_lines: u32,
    pub new_start: u32,
    pub new_lines: u32,
    pub lines: Seq<DiffLineView>,
}

/// The value of an optional string.
pub open spec fn opt_str_view(o: Option<String>) -> Option<Seq<char>> {
    match o {
        Some(s) => Some(s@),
        None => None,
    }
}

impl View for DiffLine {
    type V = DiffLineView;

    open spec fn view(&self) -> DiffLineView {
        DiffLineView {
            kind: self.kind,
            old_line_no: self.old_line_no,
            new_line_no: self.new_line_no,
            content: self.content@,
            highlighted: opt_str_view(self.highlighted),
        }
    }
}

impl View for DiffHunk {
    type V = DiffHunkView;

    open spec fn view(&self) -> DiffHunkView {
        DiffHunkView {
            old_start: self.old_start,
            old_lines: self.old_lines,
            new_start: self.new_start,
            new_lines: self.new_lines,
            lines: self.lines@.map_values(|l: DiffLine| l@),
        }
    }
}

/// The values of a sequence of hunks.
pub open spec fn hunks_view(hs: Seq<DiffHunk>) -> Seq<DiffHunkView> {
    hs.map_values(|h: DiffHunk| h@)
}

} // verus!
