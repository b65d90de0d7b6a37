//! The git service: what to run, and what the output of `git` means.
//!
//! Running the `git` process (directly or through `wsl.exe`) and reading files
//! is left to the caller; this module decides which command to run and turns
//! its output into changed files and diffs.
use vstd::prelude::*;

use super::diff_parser::{
    diff_spec, follows_header, hunks_numbered, law_parsed_lines_numbered, new_count, old_count,
    parse_unified_diff,
};
use super::types::{
    hunks_view, ChangedFile, DiffHunk, DiffHunkView, DiffLine, DiffLineView, FileDiff,
    FileStatus, LineKind, RepositoryCheckResult,
};
use super::wsl::{is_wsl_path, is_wsl_spec, parse_wsl_path, wsl_parse_spec, WslPath};
use crate::text::{
    boundary_at, byte_boundary, chars_of, is_char_boundary, lines, lines_exec, slice_chars,
    string_of, utf8_len, utf8_len_exceeds, vecs_view,
};

verus! {

broadcast use vstd::string::group_string_axioms;

/// Errors of the git service.
#[derive(Debug, Clone)]
pub enum GitError {
    /// The path holds no `.git` directory.
    NotARepository(String),
    /// The file is not part of the diff.
    FileNotFound(String),
    /// A git operation failed.
    GixError(String),
    /// An I/O error, with its message.
    IoError(String),
    /// `git` exited with failure; the text is its standard error.
    CommandFailed(String),
}

/// What a finished `git` process reported (standard output and error decoded
/// as UTF-8, invalid sequences replaced).
#[derive(Debug, Clone)]
pub struct CommandOutput {
    pub success: bool,
    pub stdout: String,
    pub stderr: String,
}

/// A process to run: the program, its arguments, and the directory to run it
/// in (`None`: the caller's current directory).
#[derive(Debug, Clone)]
pub struct Invocation {
    pub program: String,
    pub args: Vec<String>,
    pub current_dir: Option<String>,
}

/// Where the text of a file's diff comes from.
#[derive(Debug, Clone)]
pub enum DiffInput {
    /// An untracked file: its content, or `None` when the path is not a regular file.
    Untracked(Option<String>),
    /// The output of the `git diff` that [`GitService::diff_args`] names.
    Git(CommandOutput),
}

/// Git CLI wrapper. Routes WSL paths through wsl.exe for proper .gitignore handling.
pub struct GitService {
    workdir: String,
    wsl_path: Option<WslPath>,
}

/// The values of a list of strings.
pub open spec fn strings_view(v: Seq<String>) -> Seq<Seq<char>> {
    v.map_values(|s: String| s@)
}

/// The mathematical value of a changed file.
pub struct ChangedFileView {
    pub path: Seq<char>,
    pub index_status: Option<FileStatus>,
    pub worktree_status: Option<FileStatus>,
}

/// The value of a changed file.
pub open spec fn changed_file_view(f: ChangedFile) -> ChangedFileView {
    ChangedFileView {
        path: f.path@,
        index_status: f.index_status,
        worktree_status: f.worktree_status,
    }
}

/// The status that a porcelain status letter stands for; unknown letters count
/// as modified, a space or `?` as none.
pub open spec fn status_char_spec(c: char) -> Option<FileStatus> {
    if c == 'M' {
        Some(FileStatus::Modified)
    } else if c == 'A' {
        Some(FileStatus::Added)
    } else if c == 'D' {
        Some(FileStatus::Deleted)
    } else if c == 'R' {
        Some(FileStatus::Renamed)
    } else if c == 'C' {
        Some(FileStatus::Copied)
    } else if c == ' ' || c == '?' {
        None
    } else {
        Some(FileStatus::Modified)
    }
}

/// The letter by which `git status --porcelain` reports a status.
pub open spec fn porcelain_letter(s: FileStatus) -> char {
    match s {
        FileStatus::Added => 'A',
        FileStatus::Modified => 'M',
        FileStatus::Deleted => 'D',
        FileStatus::Renamed => 'R',
        FileStatus::Copied => 'C',
        FileStatus::Untracked => '?',
    }
}

/// One of the letters that porcelain status gives for a change: M, A, D, R or C.
pub open spec fn is_change_letter(c: char) -> bool {
    c == 'M' || c == 'A' || c == 'D' || c == 'R' || c == 'C'
}

/// Each change letter stands for the status that porcelain reports by that very
/// letter, so distinct letters give distinct statuses; a space stands for no change.
pub proof fn law_status_letter_names_status(c: char, d: char)
    ensures
        is_change_letter(c) ==> (status_char_spec(c) matches Some(s) && porcelain_letter(s) == c),
        is_change_letter(c) && is_change_letter(d) && c != d ==> status_char_spec(c)
            != status_char_spec(d),
        status_char_spec(' ') is None,
{
}

/// A status line `XY path` whose letters are change letters reports, for the index
/// and for the work tree, the status named by each letter.
pub proof fn law_status_line_letters(line: Seq<char>)
    requires
        utf8_len(line) >= 4,
        is_change_letter(line[0]),
    ensures
        status_line_spec(line) matches Some(f) && (f.index_status matches Some(s)
            && porcelain_letter(s) == line[0]),
        is_change_letter(line[1]) ==> (status_line_spec(line) matches Some(f) && (
        f.worktree_status matches Some(s) && porcelain_letter(s) == line[1])),
{
}

/// A status line that `git status --porcelain` could give is cut after its third
/// byte (lines of fewer than four bytes are skipped).
pub open spec fn status_line_ok(line: Seq<char>) -> bool {
    utf8_len(line) >= 4 ==> is_char_boundary(line, 3)
}

/// The changed file that a porcelain status line `XY path` describes.
pub open spec fn status_line_spec(line: Seq<char>) -> Option<ChangedFileView> {
    if utf8_len(line) < 4 {
        None
    } else {
        let path = line.skip(choose|k: int| boundary_at(line, 3, k));
        if line[0] == '?' && line[1] == '?' {
            Some(
                ChangedFileView {
                    path,
                    index_status: None,
                    worktree_status: Some(FileStatus::Untracked),
                },
            )
        } else {
            Some(
                ChangedFileView {
                    path,
                    index_status: status_char_spec(line[0]),
                    worktree_status: status_char_spec(line[1]),
                },
            )
        }
    }
}

/// The changed files of the status lines, in order.
pub open spec fn status_lines_spec(ls: Seq<Seq<char>>) -> Seq<ChangedFileView>
    decreases ls.len(),
{
    if ls.len() == 0 {
        Seq::empty()
    } else {
        let rest = status_lines_spec(ls.drop_last());
        match status_line_spec(ls.last()) {
            Some(f) => rest.push(f),
            None => rest,
        }
    }
}

/// The hunk that shows an untracked file: every line added, numbered from 1.
pub open spec fn untracked_hunks_spec(content: Seq<char>) -> Seq<DiffHunkView> {
    let ls = lines(content);
    if ls.len() == 0 {
        Seq::empty()
    } else {
        seq![
            DiffHunkView {
                old_start: 0,
                old_lines: 0,
                new_start: 1,
                new_lines: ls.len() as u32,
                lines: Seq::new(
                    ls.len(),
                    |i: int|
                        DiffLineView {
                            kind: LineKind::Addition,
                            old_line_no: None,
                            new_line_no: Some((i + 1) as u32),
                            content: ls[i],
                            highlighted: None,
                        },
                ),
            },
        ]
    }
}

/// Parses a porcelain status letter.
pub fn parse_status_char(c: char) -> (r: Option<FileStatus>)
    ensures
        r == status_char_spec(c),
{
    if c == 'M' {
        Some(FileStatus::Modified)
    } else if c == 'A' {
        Some(FileStatus::Added)
    } else if c == 'D' {
        Some(FileStatus::Deleted)
    } else if c == 'R' {
        Some(FileStatus::Renamed)
    } else if c == 'C' {
        Some(FileStatus::Copied)
    } else if c == ' ' || c == '?' {
        None
    } else {
        Some(FileStatus::Modified)
    }
}

/// Turns a list of string literals into owned strings.
fn owned_args(v: &Vec<&str>) -> (r: Vec<String>)
    ensures
        strings_view(r@) == v@.map_values(|s: &str| s@),
{
    let mut r: Vec<String> = Vec::new();
    let mut i: usize = 0;
    while i < v.len()
        invariant
            i <= v@.len(),
            strings_view(r@) == v@.take(i as int).map_values(|s: &str| s@),
        decreases v@.len() - i,
    {
        let s = string_of(chars_of(v[i]).as_slice());
        let ghost before = r@;
        r.push(s);
        proof {
            assert(r@ == before.push(s));
            assert(strings_view(r@) =~= strings_view(before).push(v@[i as int]@));
            assert(v@.take(i + 1) =~= v@.take(i as int).push(v@[i as int]));
            assert(v@.take(i + 1).map_values(|s: &str| s@) =~= v@.take(i as int).map_values(
                |s: &str| s@,
            ).push(v@[i as int]@));
        }
        i = i + 1;
    }
    assert(v@.take(v@.len() as int) =~= v@);
    r
}

/// Copies a string.
fn copy_string(s: &str) -> (r: String)
    ensures
        r@ == s@,
{
    string_of(chars_of(s).as_slice())
}

impl GitService {
    /// The repository's working directory.
    pub closed spec fn workdir_view(&self) -> Seq<char> {
        self.workdir@
    }

    /// The WSL location of the repository, if it lies inside WSL.
    pub closed spec fn wsl_view(&self) -> Option<(Seq<char>, Seq<char>)> {
        match self.wsl_path {
            Some(w) => Some((w.distro@, w.linux_path@)),
            None => None,
        }
    }

    /// Opens the repository at `path`, given whether `path/.git` exists and whether
    /// the program runs on Windows (where alone a path can lie inside WSL).
    pub fn open(path: &str, git_dir_exists: bool, on_windows: bool) -> (r: Result<Self, GitError>)
        ensures
            git_dir_exists <==> r is Ok,
            r matches Ok(g) ==> g.workdir_view() == path@ && g.wsl_view() == (if on_windows
                && is_wsl_spec(path@) {
                wsl_parse_spec(path@)
            } else {
                None
            }),
            r matches Err(e) ==> e matches GitError::NotARepository(p) && p@ == path@,
    {
        if git_dir_exists {
            let wsl_path = if is_wsl_path(path, on_windows) {
                parse_wsl_path(path, on_windows)
            } else {
                None
            };
            Ok(GitService { workdir: copy_string(path), wsl_path })
        } else {
            Err(GitError::NotARepository(copy_string(path)))
        }
    }

    /// Whether a path is a repository, given whether `path/.git` exists.
    pub fn is_repository(git_dir_exists: bool) -> (r: bool)
        ensures
            r == git_dir_exists,
    {
        git_dir_exists
    }

    /// The report on a path, given whether it exists, whether it is a directory,
    /// and whether `path/.git` exists.
    pub fn check_repository(exists: bool, is_dir: bool, git_dir_exists: bool) -> (r:
        RepositoryCheckResult)
        ensures
            r.is_repo == git_dir_exists,
            r.exists == exists,
            r.is_dir == is_dir,
            r.error is None,
    {
        RepositoryCheckResult { is_repo: git_dir_exists, exists, is_dir, error: None }
    }

    /// The process that runs `git` with `args` on this repository: `wsl.exe -d
    /// <distro> git -C <linux path> <args>` for a WSL repository, else `git
    /// <args>` in the working directory.
    pub fn git_invocation(&self, args: &Vec<String>) -> (r: Invocation)
        ensures
            match self.wsl_view() {
                Some((d, l)) => {
                    &&& r.program@ == "wsl.exe"@
                    &&& strings_view(r.args@) == seq!["-d"@, d, "git"@, "-C"@, l] + strings_view(
                        args@,
                    )
                    &&& r.current_dir is None
                },
                None => {
                    &&& r.program@ == "git"@
                    &&& strings_view(r.args@) == strings_view(args@)
                    &&& r.current_dir matches Some(c) && c@ == self.workdir_view()
                },
            },
    {
        match &self.wsl_path {
            Some(w) => {
                let mut all: Vec<String> = Vec::new();
                all.push(copy_string("-d"));
                all.push(copy_string(w.distro.as_str()));
                all.push(copy_string("git"));
                all.push(copy_string("-C"));
                all.push(copy_string(w.linux_path.as_str()));
                let ghost head = strings_view(all@);
                let mut i: usize = 0;
                while i < args.len()
                    invariant
                        i <= args@.len(),
                        strings_view(all@) == head + strings_view(args@.take(i as int)),
                    decreases args@.len() - i,
                {
                    let ghost before = all@;
                    all.push(copy_string(args[i].as_str()));
                    proof {
                        assert(strings_view(all@) =~= strings_view(before).push(args@[i as int]@));
                        assert(args@.take(i + 1) =~= args@.take(i as int).push(args@[i as int]));
                        assert(strings_view(args@.take(i + 1)) =~= strings_view(
                            args@.take(i as int),
                        ).push(args@[i as int]@));
                        assert(strings_view(all@) =~= head + strings_view(args@.take(i + 1)));
                    }
                    i = i + 1;
                }
                assert(args@.take(args@.len() as int) =~= args@);
                assert(head =~= seq!["-d"@, w.distro@, "git"@, "-C"@, w.linux_path@]);
                Invocation { program: copy_string("wsl.exe"), args: all, current_dir: None }
            },
            None => {
                let mut all: Vec<String> = Vec::new();
                let mut i: usize = 0;
                while i < args.len()
                    invariant
                        i <= args@.len(),
                        strings_view(all@) == strings_view(args@.take(i as int)),
                    decreases args@.len() - i,
                {
                    let ghost before = all@;
                    all.push(copy_string(args[i].as_str()));
                    proof {
                        assert(strings_view(all@) =~= strings_view(before).push(args@[i as int]@));
                        assert(args@.take(i + 1) =~= args@.take(i as int).push(args@[i as int]));
                        assert(strings_view(args@.take(i + 1)) =~= strings_view(
                            args@.take(i as int),
                        ).push(args@[i as int]@));
                    }
                    i = i + 1;
                }
                assert(args@.take(args@.len() as int) =~= args@);
                Invocation {
                    program: copy_string("git"),
                    args: all,
                    current_dir: Some(copy_string(self.workdir.as_str())),
                }
            },
        }
    }

    /// The arguments that list the changed files: `status --porcelain -uall`.
    pub fn status_args() -> (r: Vec<String>)
        ensures
            strings_view(r@) == seq!["status"@, "--porcelain"@, "-uall"@],
    {
        let v: Vec<&str> = vec!["status", "--porcelain", "-uall"];
        let r = owned_args(&v);
        assert(v@.map_values(|s: &str| s@) =~= seq!["status"@, "--porcelain"@, "-uall"@]);
        r
    }

    /// Reads the changed files from the output of `git status --porcelain -uall`.
    pub fn get_changed_files(&self, output: &CommandOutput) -> (r: Result<Vec<ChangedFile>, GitError>)
        requires
            forall|i: int|
                0 <= i < lines(output.stdout@).len() ==> status_line_ok(
                    #[trigger] lines(output.stdout@)[i],
                ),
        ensures
            !output.success ==> (r matches Err(GitError::CommandFailed(m)) && m@ == output.stderr@),
            output.success ==> (r matches Ok(files) && files@.map_values(
                |f: ChangedFile| changed_file_view(f),
            ) == status_lines_spec(lines(output.stdout@))),
    {
        if !output.success {
            return Err(GitError::CommandFailed(copy_string(output.stderr.as_str())));
        }
        let text = chars_of(output.stdout.as_str());
        let ls = lines_exec(text.as_slice());
        let ghost lsv = vecs_view(ls@);
        let mut files: Vec<ChangedFile> = Vec::new();
        let mut i: usize = 0;
        assert(lsv.take(0) =~= Seq::<Seq<char>>::empty());
        while i < ls.len()
            invariant
                i <= ls@.len(),
                lsv == vecs_view(ls@),
                lsv == lines(output.stdout@),
                forall|j: int| 0 <= j < lsv.len() ==> status_line_ok(#[trigger] lsv[j]),
                files@.map_values(|f: ChangedFile| changed_file_view(f)) == status_lines_spec(
                    lsv.take(i as int),
                ),
            decreases ls@.len() - i,
        {
            let line = ls[i].as_slice();
            proof {
                assert(lsv.take(i + 1).drop_last() =~= lsv.take(i as int));
                assert(lsv.take(i + 1).last() == line@);
                assert(status_line_ok(lsv[i as int]));
            }
            if utf8_len_exceeds(line, 3) {
                let k = byte_boundary(line, 3).unwrap();
                proof {
                    let c = choose|c: int| boundary_at(line@, 3, c);
                    crate::text::lemma_boundary_unique(line@, 3, c, k as int);
                    assert(k >= 1);
                    assert(line@.len() >= 2) by {
                        if line@.len() < 2 {
                            assert(line@.take(k as int) =~= line@);
                        }
                    }
                }
                let index_char = line[0];
                let worktree_char = line[1];
                let path = string_of(slice_chars(line, k, line.len()).as_slice());
                proof {
                    assert(line@.subrange(k as int, line@.len() as int) =~= line@.skip(k as int));
                }
                let f = if index_char == '?' && worktree_char == '?' {
                    ChangedFile {
                        path,
                        index_status: None,
                        worktree_status: Some(FileStatus::Untracked),
                    }
                } else {
                    ChangedFile {
                        path,
                        index_status: parse_status_char(index_char),
                        worktree_status: parse_status_char(worktree_char),
                    }
                };
                let ghost before = files@;
                files.push(f);
                proof {
                    assert(files@.map_values(|f: ChangedFile| changed_file_view(f)) =~= before.map_values(
                        |f: ChangedFile| changed_file_view(f),
                    ).push(changed_file_view(f)));
                }
            }
            i = i + 1;
        }
        assert(lsv.take(ls@.len() as int) =~= lsv);
        Ok(files)
    }

    /// The arguments of the `git diff` for one file: `--cached` when only staged
    /// changes exist, else against `HEAD`.
    pub fn diff_args(
        file_path: &str,
        index_status: Option<FileStatus>,
        worktree_status: Option<FileStatus>,
    ) -> (r: Vec<String>)
        ensures
            strings_view(r@) == (if index_status is Some && worktree_status is None {
                seq!["diff"@, "--cached"@, "--"@, file_path@]
            } else {
                seq!["diff"@, "HEAD"@, "--"@, file_path@]
            }),
    {
        let v: Vec<&str> = if index_status.is_some() && worktree_status.is_none() {
            vec!["diff", "--cached", "--", file_path]
        } else {
            vec!["diff", "HEAD", "--", file_path]
        };
        let r = owned_args(&v);
        proof {
            if index_status is Some && worktree_status is None {
                assert(v@.map_values(|s: &str| s@) =~= seq!["diff"@, "--cached"@, "--"@, file_path@]);
            } else {
                assert(v@.map_values(|s: &str| s@) =~= seq!["diff"@, "HEAD"@, "--"@, file_path@]);
            }
        }
        r
    }

    /// Whether the diff of a file is read from the file itself (untracked files)
    /// rather than from `git diff`.
    pub fn diff_reads_file(worktree_status: Option<FileStatus>) -> (r: bool)
        ensures
            r == (worktree_status == Some(FileStatus::Untracked)),
    {
        match worktree_status {
            Some(FileStatus::Untracked) => true,
            _ => false,
        }
    }

    /// The diff of one file. The shown status is the worktree status, else the
    /// index status, else modified; the hunks come from `input`.
    pub fn get_file_diff_with_status(
        &self,
        file_path: &str,
        index_status: Option<FileStatus>,
        worktree_status: Option<FileStatus>,
        input: &DiffInput,
    ) -> (r: Result<FileDiff, GitError>)
        ensures
            match input {
                DiffInput::Git(out) => if !out.success {
                    r matches Err(GitError::CommandFailed(m)) && m@ == out.stderr@
                } else {
                    r matches Ok(d) && hunks_view(d.hunks@) == diff_spec(out.stdout@)
                },
                DiffInput::Untracked(Some(content)) => r matches Ok(d) && hunks_view(d.hunks@)
                    == untracked_hunks_spec(content@),
                DiffInput::Untracked(None) => r matches Ok(d) && d.hunks@.len() == 0,
            },
            r matches Ok(d) ==> d.path@ == file_path@ && d.status == (match worktree_status {
                Some(s) => s,
                None => match index_status {
                    Some(s) => s,
                    None => FileStatus::Modified,
                },
            }),
    {
        let status = match worktree_status {
            Some(s) => s,
            None => match index_status {
                Some(s) => s,
                None => FileStatus::Modified,
            },
        };
        let hunks = match input {
            DiffInput::Git(out) => {
                if !out.success {
                    return Err(GitError::CommandFailed(copy_string(out.stderr.as_str())));
                }
                parse_unified_diff(out.stdout.as_str())
            },
            DiffInput::Untracked(Some(content)) => untracked_hunks(content.as_str()),
            DiffInput::Untracked(None) => Vec::new(),
        };
        Ok(FileDiff { path: copy_string(file_path), status, hunks })
    }

    /// The arguments that stage everything: `add --all`.
    pub fn stage_all_args() -> (r: Vec<String>)
        ensures
            strings_view(r@) == seq!["add"@, "--all"@],
    {
        let v: Vec<&str> = vec!["add", "--all"];
        let r = owned_args(&v);
        assert(v@.map_values(|s: &str| s@) =~= seq!["add"@, "--all"@]);
        r
    }

    /// The outcome of `git add --all`.
    pub fn stage_all(&self, output: &CommandOutput) -> (r: Result<(), GitError>)
        ensures
            output.success <==> r is Ok,
            r matches Err(e) ==> e matches GitError::CommandFailed(m) && m@ == output.stderr@,
    {
        if !output.success {
            return Err(GitError::CommandFailed(copy_string(output.stderr.as_str())));
        }
        Ok(())
    }
}

/// The hunk that shows an untracked file's content as added lines.
pub fn untracked_hunks(content: &str) -> (r: Vec<DiffHunk>)
    ensures
        hunks_view(r@) == untracked_hunks_spec(content@),
{
    let text = chars_of(content);
    let ls = lines_exec(text.as_slice());
    let ghost lsv = vecs_view(ls@);
    let mut out: Vec<DiffLine> = Vec::new();
    let mut i: usize = 0;
    while i < ls.len()
        invariant
            i <= ls@.len(),
            lsv == vecs_view(ls@),
            out@.len() == i,
            forall|j: int|
                0 <= j < i ==> (#[trigger] out@[j])@ == (DiffLineView {
                    kind: LineKind::Addition,
                    old_line_no: None,
                    new_line_no: Some((j + 1) as u32),
                    content: lsv[j],
                    highlighted: None,
                }),
        decreases ls@.len() - i,
    {
        let no: u32 = (i + 1) as u32;
        out.push(
            DiffLine {
                kind: LineKind::Addition,
                old_line_no: None,
                new_line_no: Some(no),
                content: string_of(ls[i].as_slice()),
                highlighted: None,
            },
        );
        i = i + 1;
    }
    if out.len() == 0 {
        let r: Vec<DiffHunk> = Vec::new();
        assert(hunks_view(r@) =~= untracked_hunks_spec(content@));
        return r;
    }
    let n: u32 = out.len() as u32;
    let h = DiffHunk { old_start: 0, old_lines: 0, new_start: 1, new_lines: n, lines: out };
    let mut r: Vec<DiffHunk> = Vec::new();
    r.push(h);
    proof {
        assert(h@.lines =~= untracked_hunks_spec(content@)[0].lines);
        assert(hunks_view(r@) =~= untracked_hunks_spec(content@));
    }
    r
}

proof fn lemma_added_counts(ls: Seq<DiffLineView>)
    requires
        forall|j: int| 0 <= j < ls.len() ==> (#[trigger] ls[j]).kind == LineKind::Addition,
    ensures
        old_count(ls) == 0,
        new_count(ls) == ls.len(),
    decreases ls.len(),
{
    if ls.len() > 0 {
        lemma_added_counts(ls.drop_last());
    }
}

/// An untracked file shows as one hunk of added lines, one per line of the file, in
/// order: every line has only a new line number, the hunk adds exactly the lines it
/// holds and removes none, and the lines are numbered from its header (the file
/// having no more lines than a `u32` counts).
pub proof fn law_untracked_lines_all_added(content: Seq<char>)
    ensures
        untracked_hunks_spec(content).len() == if lines(content).len() == 0 { 0int } else { 1int },
        hunks_numbered(untracked_hunks_spec(content)),
        forall|g: int, i: int|
            0 <= g < untracked_hunks_spec(content).len() && 0 <= i < untracked_hunks_spec(content)[g].lines.len()
                ==> (#[trigger] untracked_hunks_spec(content)[g].lines[i]).content == lines(content)[i],
        forall|g: int| 0 <= g < untracked_hunks_spec(content).len() ==> {
            &&& (#[trigger] untracked_hunks_spec(content)[g]).lines.len() == lines(content).len()
            &&& old_count(untracked_hunks_spec(content)[g].lines) == 0
            &&& untracked_hunks_spec(content)[g].old_lines == 0
            &&& new_count(untracked_hunks_spec(content)[g].lines) == lines(content).len()
            &&& (lines(content).len() <= u32::MAX ==> {
                &&& untracked_hunks_spec(content)[g].new_lines == lines(content).len()
                &&& follows_header(untracked_hunks_spec(content)[g])
            })
        },
{
    let hs = untracked_hunks_spec(content);
    let ls = lines(content);
    if ls.len() > 0 {
        let h = hs[0];
        assert forall|i: int| 0 <= i < h.lines.len() implies (#[trigger] h.lines[i]).kind == LineKind::Addition by {}
        lemma_added_counts(h.lines);
        if ls.len() <= u32::MAX {
            assert forall|i: int| 0 <= i < h.lines.len() implies {
                &&& ((#[trigger] h.lines[i]).kind != LineKind::Addition ==> h.lines[i].old_line_no
                    == Some(crate::git::diff_parser::wrapped(h.old_start, old_count(h.lines.take(i)))))
                &&& (h.lines[i].kind != LineKind::Deletion ==> h.lines[i].new_line_no == Some(
                    crate::git::diff_parser::wrapped(h.new_start, new_count(h.lines.take(i))),
                ))
            } by {
                assert forall|j: int| 0 <= j < h.lines.take(i).len() implies (#[trigger] h.lines.take(i)[j]).kind == LineKind::Addition by {
                    assert(h.lines.take(i)[j] == h.lines[j]);
                }
                lemma_added_counts(h.lines.take(i));
                assert(((1 + i) % 0x1_0000_0000) == 1 + i);
            }
        }
    }
}

/// Every line of a file's diff, from `git diff` output or from an untracked file,
/// is numbered as its kind says: an added line has only a new number, a removed
/// line only an old one, an unchanged line both.
pub proof fn law_file_diff_lines_numbered(diff_output: Seq<char>, untracked_content: Seq<char>)
    ensures
        hunks_numbered(diff_spec(diff_output)),
        hunks_numbered(untracked_hunks_spec(untracked_content)),
{
    law_parsed_lines_numbered(diff_output);
    law_untracked_lines_all_added(untracked_content);
}

} // verus!
