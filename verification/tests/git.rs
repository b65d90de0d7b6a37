use devflow::git::diff_parser::{parse_hunk_header, parse_unified_diff};
use devflow::git::service::{CommandOutput, GitError, GitService};
use devflow::git::types::{FileStatus, LineKind};
use devflow::git::wsl::{is_wsl_path, parse_wsl_path};

#[test]
fn test_parse_simple_diff() {
    let diff = r#"diff --git a/test.txt b/test.txt
index abc123..def456 100644
--- a/test.txt
+++ b/test.txt
@@ -1,3 +1,4 @@
 line1
+added line
 line2
 line3
"#;
    let hunks = parse_unified_diff(diff);
    assert_eq!(hunks.len(), 1);
    assert_eq!(hunks[0].old_start, 1);
    assert_eq!(hunks[0].old_lines, 3);
    assert_eq!(hunks[0].new_start, 1);
    assert_eq!(hunks[0].new_lines, 4);
    assert_eq!(hunks[0].lines.len(), 4);
}

#[test]
fn test_parse_hunk_header_with_context() {
    // Some git versions include function context after @@
    let header = "@@ -10,5 +10,6 @@ fn main()";
    let result = parse_hunk_header(header);
    assert_eq!(result, Some((10, 5, 10, 6)));
}

#[test]
fn test_parse_hunk_header_single_line() {
    let header = "@@ -1 +1,2 @@";
    let result = parse_hunk_header(header);
    assert_eq!(result, Some((1, 1, 1, 2)));
}

#[test]
fn test_parse_deletion() {
    let diff = r#"@@ -1,2 +1 @@
 kept
-deleted
"#;
    let hunks = parse_unified_diff(diff);
    assert_eq!(hunks.len(), 1);
    assert_eq!(hunks[0].lines.len(), 2);
    assert_eq!(hunks[0].lines[1].kind, LineKind::Deletion);
}

#[test]
fn diff_lines_are_numbered() {
    let diff = "@@ -5,2 +5,2 @@\n a\n-b\n+c\n";
    let hunks = parse_unified_diff(diff);
    let lines = &hunks[0].lines;
    assert_eq!(lines.len(), 3);
    assert_eq!(lines[0].kind, LineKind::Context);
    assert_eq!((lines[0].old_line_no, lines[0].new_line_no), (Some(5), Some(5)));
    assert_eq!(lines[1].kind, LineKind::Deletion);
    assert_eq!((lines[1].old_line_no, lines[1].new_line_no), (Some(6), None));
    assert_eq!(lines[2].kind, LineKind::Addition);
    assert_eq!((lines[2].old_line_no, lines[2].new_line_no), (None, Some(6)));
    assert_eq!(lines[2].content, "c");
}

#[test]
fn malformed_hunk_header_is_none() {
    assert_eq!(parse_hunk_header("@@ -x +1 @@"), None);
    assert_eq!(parse_hunk_header("not a header"), None);
    assert!(parse_unified_diff("no hunks here\n").is_empty());
}

#[test]
fn test_is_wsl_path_modern() {
    assert!(is_wsl_path(r"\\wsl.localhost\Ubuntu-22.04\home\tony", true));
    assert!(is_wsl_path(r"\\wsl.localhost\Ubuntu\home", true));
}

#[test]
fn test_is_wsl_path_legacy() {
    assert!(is_wsl_path(r"\\wsl$\Ubuntu-22.04\home\tony", true));
    assert!(is_wsl_path(r"\\wsl$\Ubuntu\home", true));
}

#[test]
fn test_is_wsl_path_negative() {
    for on_windows in [true, false] {
        assert!(!is_wsl_path(r"/home/tony", on_windows));
        assert!(!is_wsl_path(r"./relative/path", on_windows));
    }
}

#[test]
fn test_is_wsl_path_windows_paths() {
    assert!(!is_wsl_path(r"C:\Users\tony", true));
    assert!(!is_wsl_path(r"\\server\share", true));
}

#[test]
fn test_parse_wsl_path_modern() {
    let path = r"\\wsl.localhost\Ubuntu-22.04\home\tony\dev\project";
    let parsed = parse_wsl_path(path, true).unwrap();

    assert_eq!(parsed.distro, "Ubuntu-22.04");
    assert_eq!(parsed.linux_path, "/home/tony/dev/project");
}

#[test]
fn test_parse_wsl_path_legacy() {
    let path = r"\\wsl$\Ubuntu\home\tony";
    let parsed = parse_wsl_path(path, true).unwrap();

    assert_eq!(parsed.distro, "Ubuntu");
    assert_eq!(parsed.linux_path, "/home/tony");
}

#[test]
fn test_parse_wsl_path_root() {
    let path = r"\\wsl.localhost\Ubuntu-22.04";
    let parsed = parse_wsl_path(path, true).unwrap();

    assert_eq!(parsed.distro, "Ubuntu-22.04");
    assert_eq!(parsed.linux_path, "/");
}

#[test]
fn test_parse_wsl_path_mixed_separators() {
    let path = r"\\wsl.localhost\Ubuntu/home/tony/project";
    let parsed = parse_wsl_path(path, true).unwrap();

    assert_eq!(parsed.distro, "Ubuntu");
    assert_eq!(parsed.linux_path, "/home/tony/project");
}

#[test]
fn test_parse_wsl_path_special_distro_names() {
    let path = r"\\wsl.localhost\Debian-11.5\var\log";
    let parsed = parse_wsl_path(path, true).unwrap();

    assert_eq!(parsed.distro, "Debian-11.5");
    assert_eq!(parsed.linux_path, "/var/log");
}

#[test]
fn test_parse_wsl_path_not_wsl() {
    let path = r"C:\Users\tony";
    assert!(parse_wsl_path(path, true).is_none());
}

#[test]
fn test_parse_wsl_path_non_windows() {
    assert!(parse_wsl_path("/home/tony", false).is_none());
    // Off Windows no path lies inside WSL, whatever its prefix.
    assert!(parse_wsl_path(r"\\wsl.localhost\Ubuntu\home", false).is_none());
    assert!(!is_wsl_path(r"\\wsl.localhost\Ubuntu\home", false));
    assert!(!is_wsl_path(r"\\wsl$\Ubuntu\home", false));
}

#[test]
fn wsl_path_with_empty_distro_is_none() {
    assert!(parse_wsl_path(r"\\wsl$\\home", true).is_none());
}

fn status_output(stdout: &str) -> CommandOutput {
    CommandOutput { success: true, stdout: stdout.to_string(), stderr: String::new() }
}

fn test_service() -> GitService {
    GitService::open("/work/repo", true, false).unwrap()
}

#[test]
fn test_open_non_repo() {
    let result = GitService::open("/tmp/not-a-repo", false, false);
    assert!(matches!(result, Err(GitError::NotARepository(_))));
}

#[test]
fn test_is_repository() {
    assert!(!GitService::is_repository(false));
    assert!(GitService::is_repository(true));
}

#[test]
fn test_get_changed_files_untracked() {
    let files = test_service().get_changed_files(&status_output("?? test.txt\n")).unwrap();
    assert_eq!(files.len(), 1);
    assert_eq!(files[0].path, "test.txt");
    assert_eq!(files[0].index_status, None);
    assert_eq!(files[0].worktree_status, Some(FileStatus::Untracked));
}

#[test]
fn test_get_changed_files_modified() {
    let files = test_service().get_changed_files(&status_output(" M initial.txt\n")).unwrap();
    assert_eq!(files.len(), 1);
    assert_eq!(files[0].path, "initial.txt");
    assert_eq!(files[0].index_status, None);
    assert_eq!(files[0].worktree_status, Some(FileStatus::Modified));
}

#[test]
fn test_get_changed_files_staged() {
    let files = test_service().get_changed_files(&status_output("M  initial.txt\n")).unwrap();
    assert_eq!(files.len(), 1);
    assert_eq!(files[0].path, "initial.txt");
    assert_eq!(files[0].index_status, Some(FileStatus::Modified));
    assert_eq!(files[0].worktree_status, None);
}

#[test]
fn test_get_changed_files_deleted() {
    let files = test_service().get_changed_files(&status_output(" D initial.txt\n")).unwrap();
    assert_eq!(files.len(), 1);
    assert_eq!(files[0].path, "initial.txt");
    assert_eq!(files[0].index_status, None);
    assert_eq!(files[0].worktree_status, Some(FileStatus::Deleted));
}

#[test]
fn test_stage_all() {
    assert_eq!(GitService::stage_all_args(), vec!["add".to_string(), "--all".to_string()]);
    let service = test_service();
    assert!(service.stage_all(&status_output("")).is_ok());
    let failed = CommandOutput { success: false, stdout: String::new(), stderr: "fatal".to_string() };
    match service.stage_all(&failed) {
        Err(GitError::CommandFailed(m)) => assert_eq!(m, "fatal"),
        other => panic!("unexpected {:?}", other),
    }
}
