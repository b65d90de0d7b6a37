use devflow::agent::error::AgentError;
use devflow::agent::memory::{load_error, LoadResult, MemoryState, ReloadAction, MAX_CHAR_COUNT};
use devflow::agent::tools::calls::{
    awaits_plan_approval, cancelled_result, channel_closed, format_todos, orchestrated_tool_error,
    plan_outcome, start_tool_call, todos_updated_message, tool_result_text, PlanApproval,
};
use devflow::agent::tools::context::{
    check_path_components, check_within_working_dir, fetched_content, http_status_error, operation_failed,
    outside_working_dir, truncate_output, PathComponent, MAX_OUTPUT_SIZE,
};
use devflow::agent::tools::files::{
    apply_edit, apply_edits, directory_listing, glob_listing, grep_files, select_lines, EntryKind,
    GlobEntry, GrepFile,
};
use devflow::agent::tools::notebook::{
    format_notebook, notebook_edit_message, plan_notebook_edit, CellSource, NotebookCell,
    NotebookEdit,
};
use devflow::agent::tools::shell::{command_outcome, spawn_failure, Platform, ShellExecutor};
use devflow::agent::tools::types::{EditOperation, TodoItem, ToolName};
use devflow::git::wsl::WslPath;
use std::path::{Component, Path};
use devflow::agent::tools::files::{included, looks_binary};

/// Checks a path the way the tools do before touching the file system.
fn resolve_path(path: &str) -> Result<(), AgentError> {
    let p = Path::new(path);
    let components: Vec<PathComponent> = p
        .components()
        .map(|c| match c {
            Component::Prefix(_) => PathComponent::Prefix,
            Component::RootDir => PathComponent::RootDir,
            Component::CurDir => PathComponent::CurDir,
            Component::ParentDir => PathComponent::ParentDir,
            Component::Normal(_) => PathComponent::Normal,
        })
        .collect();
    check_path_components(p.is_absolute(), &components)
}

#[test]
fn test_resolve_path_rejects_absolute() {
    assert!(resolve_path("/etc/passwd").is_err());
}

#[test]
fn test_resolve_path_rejects_traversal() {
    assert!(resolve_path("../../../etc/passwd").is_err());
}

#[test]
fn test_resolve_path_accepts_relative() {
    let result = resolve_path("foo/bar.txt");
    assert!(result.is_ok());
    assert!(Path::new("/work").join("foo/bar.txt").starts_with("/work"));
}

#[test]
fn path_refusals_name_the_reason() {
    match resolve_path("/x") {
        Err(AgentError::InvalidToolInput(m)) => assert_eq!(m, "Absolute paths are not allowed"),
        other => panic!("unexpected {:?}", other),
    }
    match resolve_path("a/../b") {
        Err(AgentError::InvalidToolInput(m)) => {
            assert_eq!(m, "Path traversal ('..') is not allowed")
        }
        other => panic!("unexpected {:?}", other),
    }
    match check_path_components(false, &vec![PathComponent::Prefix]) {
        Err(AgentError::InvalidToolInput(m)) => assert_eq!(m, "Invalid path component"),
        other => panic!("unexpected {:?}", other),
    }
    assert_eq!(
        outside_working_dir("x").message(),
        "Invalid tool input: Path 'x' resolves outside working directory"
    );
    assert_eq!(
        operation_failed("read file", "boom").message(),
        "Tool execution error: Failed to read file: boom"
    );
}

#[test]
fn test_truncate_output() {
    let short = "hello".to_string();
    assert_eq!(truncate_output(short.clone()), short);

    let long = "x".repeat(MAX_OUTPUT_SIZE + 100);
    let truncated = truncate_output(long);
    assert!(truncated.len() <= MAX_OUTPUT_SIZE + 50);
    assert!(truncated.ends_with("(output truncated)"));
}

#[test]
fn fetched_pages_note_their_size() {
    assert_eq!(fetched_content("small".to_string()), "small");
    let long = "y".repeat(MAX_OUTPUT_SIZE + 10);
    let cut = fetched_content(long);
    assert!(cut.ends_with(&format!("...\n(truncated, {} bytes total)", MAX_OUTPUT_SIZE + 10)));
    assert!(cut.starts_with(&"y".repeat(MAX_OUTPUT_SIZE)));
    assert_eq!(
        http_status_error("404 Not Found").message(),
        "Tool execution error: HTTP error: 404 Not Found"
    );
}

#[test]
fn read_window_selects_lines() {
    let content = "a\nb\nc\nd";
    assert_eq!(select_lines(content, None, None), "a\nb\nc\nd");
    assert_eq!(select_lines(content, Some(1), Some(2)), "b\nc");
    assert_eq!(select_lines(content, Some(10), None), "");
}

#[test]
fn edits_replace_first_or_all() {
    assert_eq!(apply_edit("a b a", "a", "x", None).unwrap(), "x b a");
    assert_eq!(apply_edit("a b a", "a", "x", Some(true)).unwrap(), "x b x");
    match apply_edit("abc", "z", "y", None) {
        Err(AgentError::ToolExecutionError(m)) => assert_eq!(m, "old_text not found in file"),
        other => panic!("unexpected {:?}", other),
    }
    let edits = vec![
        EditOperation {
            old_text: "one".to_string(),
            new_text: "two".to_string(),
        },
        EditOperation {
            old_text: "two".to_string(),
            new_text: "three".to_string(),
        },
    ];
    assert_eq!(apply_edits("one", &edits).unwrap(), "three");
    let bad = vec![
        EditOperation {
            old_text: "one".to_string(),
            new_text: "two".to_string(),
        },
        EditOperation {
            old_text: "zzz".to_string(),
            new_text: "y".to_string(),
        },
    ];
    match apply_edits("one", &bad) {
        Err(AgentError::ToolExecutionError(m)) => {
            assert_eq!(m, "Edit 2 failed: old_text not found in file")
        }
        other => panic!("unexpected {:?}", other),
    }
}

#[test]
fn listings_are_sorted_and_capped() {
    let entries = vec![
        ("src".to_string(), EntryKind::Dir),
        ("Cargo.toml".to_string(), EntryKind::File),
        ("b".to_string(), EntryKind::Other),
    ];
    assert_eq!(
        directory_listing(&entries),
        "Cargo.toml (file)\nb (other)\nsrc (dir)"
    );
    let globs = vec![
        GlobEntry {
            mtime: 1,
            relative: Some("old.rs".to_string()),
        },
        GlobEntry {
            mtime: 5,
            relative: Some("new.rs".to_string()),
        },
        GlobEntry {
            mtime: 3,
            relative: None,
        },
    ];
    assert_eq!(glob_listing(globs), "new.rs\nold.rs");
}

#[test]
fn grep_reports_matching_lines() {
    let files = vec![
        GrepFile {
            path: "a.rs".to_string(),
            content: "fn main()\nlet x = 1;\nfn helper()".to_string(),
        },
        GrepFile {
            path: "b.rs".to_string(),
            content: "nothing".to_string(),
        },
    ];
    assert_eq!(grep_files("^fn ", &files).unwrap(), "a.rs:1:fn main()\na.rs:3:fn helper()");
    assert_eq!(grep_files("zzz", &files).unwrap(), "No matches found");
    match grep_files("(", &files) {
        Err(AgentError::InvalidToolInput(m)) => assert!(m.starts_with("Invalid regex: ")),
        other => panic!("unexpected {:?}", other),
    }
}

#[test]
fn notebooks_are_listed_by_cell() {
    let cells = vec![
        NotebookCell {
            cell_type: Some("markdown".to_string()),
            source: CellSource::Pieces(vec![Some("# T\n".to_string()), None, Some("x".to_string())]),
        },
        NotebookCell {
            cell_type: None,
            source: CellSource::Text("print(1)".to_string()),
        },
        NotebookCell {
            cell_type: Some("code".to_string()),
            source: CellSource::Missing,
        },
    ];
    assert_eq!(
        format_notebook(Some(&cells)).unwrap(),
        "--- Cell 0 (markdown) ---\n# T\nx\n\n--- Cell 1 (unknown) ---\nprint(1)\n\n--- Cell 2 (code) ---\n"
    );
    match format_notebook(None) {
        Err(AgentError::ToolExecutionError(m)) => assert_eq!(m, "Notebook has no cells array"),
        other => panic!("unexpected {:?}", other),
    }
}

#[test]
fn notebook_edits_are_planned() {
    match plan_notebook_edit(None, 1, 3, "a\nb", None).unwrap() {
        NotebookEdit::Replace { index, source } => {
            assert_eq!(index, 1);
            assert_eq!(source, vec!["a\n".to_string(), "b\n".to_string()]);
        }
        other => panic!("unexpected {:?}", other),
    }
    match plan_notebook_edit(Some("insert"), 9, 3, "x", None).unwrap() {
        NotebookEdit::Insert { at, cell_type, .. } => {
            assert_eq!(at, None);
            assert_eq!(cell_type, "code");
        }
        other => panic!("unexpected {:?}", other),
    }
    match plan_notebook_edit(Some("delete"), 3, 3, "", None) {
        Err(AgentError::ToolExecutionError(m)) => {
            assert_eq!(m, "Cell 3 does not exist (notebook has 3 cells)")
        }
        other => panic!("unexpected {:?}", other),
    }
    match plan_notebook_edit(Some("move"), 0, 3, "", None) {
        Err(AgentError::InvalidToolInput(m)) => assert_eq!(m, "Unknown edit_mode: move"),
        other => panic!("unexpected {:?}", other),
    }
    assert_eq!(
        notebook_edit_message("replace", 2, "nb.ipynb"),
        "Successfully replace cell 2 in nb.ipynb"
    );
}

#[test]
fn shell_command_lines() {
    let exec = ShellExecutor::new("/proj".to_string(), 30);
    assert_eq!(exec.command_timeout(None), 30);
    assert_eq!(exec.command_timeout(Some(5)), 5);
    let line = exec.command_line("ls", Platform::Unix);
    assert_eq!(line.program, "sh");
    assert_eq!(line.args, vec!["-c".to_string(), "ls".to_string()]);
    assert_eq!(line.current_dir, Some("/proj".to_string()));
    let line = exec.command_line("dir", Platform::Windows);
    assert_eq!(line.program, "cmd");
    let wsl = ShellExecutor::with_wsl(
        "/proj".to_string(),
        30,
        Some(WslPath {
            distro: "Ubuntu".to_string(),
            linux_path: "/home/u/p".to_string(),
        }),
    );
    let line = wsl.command_line("ls", Platform::Windows);
    assert_eq!(line.program, "wsl.exe");
    assert_eq!(line.args[4], "cd '/home/u/p' && ls");
    assert!(line.current_dir.is_none());
}

#[test]
fn command_outcomes() {
    assert_eq!(command_outcome("out", "", true, Some(0)).unwrap(), "out");
    assert_eq!(command_outcome("out", "err", true, Some(0)).unwrap(), "out\nerr");
    match command_outcome("", "bad", false, Some(2)) {
        Err(AgentError::ToolExecutionError(m)) => {
            assert_eq!(m, "Command failed with exit code 2: bad")
        }
        other => panic!("unexpected {:?}", other),
    }
    match command_outcome("", "", false, None) {
        Err(AgentError::ToolExecutionError(m)) => assert_eq!(m, "Command failed with exit code -1: "),
        other => panic!("unexpected {:?}", other),
    }
    assert!(spawn_failure("no sh").message().contains("no sh"));
}

#[test]
fn tool_calls_and_plans() {
    assert_eq!(start_tool_call("glob", false).unwrap(), ToolName::Glob);
    assert!(matches!(start_tool_call("glob", true), Err(AgentError::Cancelled)));
    match start_tool_call("nope", false) {
        Err(AgentError::UnknownTool(n)) => assert_eq!(n, "nope"),
        other => panic!("unexpected {:?}", other),
    }
    assert_eq!(tool_result_text(Ok("fine".to_string())), ("fine".to_string(), false));
    let (text, is_error) = tool_result_text(Err(AgentError::ToolTimeout));
    assert!(is_error);
    assert_eq!(text, AgentError::ToolTimeout.message());
    assert_eq!(cancelled_result(), ("Cancelled by user".to_string(), true));
    assert!(awaits_plan_approval(ToolName::SubmitPlan, false));
    assert!(!awaits_plan_approval(ToolName::SubmitPlan, true));
    assert!(!awaits_plan_approval(ToolName::Bash, false));
    assert_eq!(
        plan_outcome(Some(PlanApproval::Approved), "x".to_string(), false),
        (
            "Plan approved by user. Proceed with implementation.".to_string(),
            false
        )
    );
    assert_eq!(
        plan_outcome(Some(PlanApproval::Rejected(Some("too big".to_string()))), "x".to_string(), false),
        ("Plan rejected by user: too big".to_string(), true)
    );
    assert_eq!(
        plan_outcome(Some(PlanApproval::Rejected(None)), "x".to_string(), false),
        ("Plan rejected by user.".to_string(), true)
    );
    assert_eq!(plan_outcome(None, "x".to_string(), false), ("x".to_string(), false));
    assert!(matches!(channel_closed(), PlanApproval::Rejected(Some(ref m)) if m == "Channel closed"));
    assert_eq!(
        orchestrated_tool_error(ToolName::DispatchAgent).message(),
        "Tool execution error: Tool 'dispatch_agent' is handled by the orchestration layer"
    );
}

#[test]
fn todos_are_listed() {
    assert_eq!(format_todos(&vec![]), "No todos");
    let todos = vec![TodoItem {
        id: "1".to_string(),
        content: "Fix bug".to_string(),
        status: "pending".to_string(),
        priority: "high".to_string(),
    }];
    assert_eq!(format_todos(&todos), "[pending] Fix bug (high)");
    assert_eq!(todos_updated_message(3), "Updated 3 todos");
}

#[test]
fn memory_from_file_and_injection() {
    let (state, result) = MemoryState::from_file("Test content\n".to_string(), "/p/AGENTS.md".to_string(), Some(5));
    assert!(state.is_loaded());
    assert!(!state.is_truncated());
    match result {
        LoadResult::Loaded { path, char_count, truncated } => {
            assert_eq!(path, "/p/AGENTS.md");
            assert_eq!(char_count, 13);
            assert!(!truncated);
        }
        other => panic!("unexpected {:?}", other),
    }
    let formatted = state.format_for_injection().unwrap();
    assert!(formatted.contains("<project-memory source=\"AGENTS.md\">"));
    assert!(formatted.contains("Test content"));
    assert!(formatted.contains("</project-memory>"));
    assert!(MemoryState::new().format_for_injection().is_none());
}

#[test]
fn memory_is_capped() {
    let (state, result) = MemoryState::from_file("x".repeat(51_000), "p".to_string(), None);
    assert!(state.is_truncated());
    assert!(state.char_count() <= 50_000 + 100);
    assert!(matches!(result, LoadResult::Loaded { truncated: true, .. }));
}

#[test]
fn memory_reload_decisions() {
    let mut empty = MemoryState::new();
    assert_eq!(empty.reload_decision(false, None), ReloadAction::Unchanged);
    assert_eq!(empty.reload_decision(true, Some(1)), ReloadAction::Reload);
    let (mut state, _) = MemoryState::from_file("a".to_string(), "p".to_string(), Some(7));
    assert_eq!(state.reload_decision(true, Some(7)), ReloadAction::Unchanged);
    assert_eq!(state.reload_decision(true, None), ReloadAction::Unchanged);
    assert_eq!(state.reload_decision(true, Some(8)), ReloadAction::Reload);
    assert_eq!(state.reload_decision(false, None), ReloadAction::Cleared);
    assert!(!state.is_loaded());
    assert!(matches!(load_error("read", "denied"), LoadResult::Error(ref m) if m == "Cannot read AGENTS.md: denied"));
}

#[test]
fn binary_and_name_filters() {
    assert!(looks_binary(&[b'a', 0, b'b']));
    assert!(!looks_binary(b"plain text"));
    let mut late = vec![b'x'; 2000];
    late[1500] = 0;
    assert!(!looks_binary(&late));
    assert!(included(None, "main.rs"));
    assert!(included(Some("*.rs"), "main.rs"));
    assert!(!included(Some("*.rs"), "main.py"));
    assert!(!included(Some("[unclosed"), "main.rs"));
}

#[test]
fn test_load_existing_file() {
    let (state, result) = MemoryState::from_file(
        "# Test Memory\n\nThis is test content.\n".to_string(),
        "/p/AGENTS.md".to_string(),
        Some(1),
    );
    assert!(state.is_loaded());
    assert!(!state.is_truncated());
    if let LoadResult::Loaded { char_count, truncated, .. } = result {
        assert!(char_count > 0);
        assert!(!truncated);
    } else {
        panic!("Expected LoadResult::Loaded");
    }
}

#[test]
fn test_truncation() {
    let (state, result) = MemoryState::from_file("x".repeat(MAX_CHAR_COUNT + 1000), "/p/AGENTS.md".to_string(), None);
    assert!(state.is_loaded());
    assert!(state.is_truncated());
    assert!(state.char_count() <= MAX_CHAR_COUNT + 100);
    if let LoadResult::Loaded { truncated, .. } = result {
        assert!(truncated);
    } else {
        panic!("Expected LoadResult::Loaded");
    }
}

#[test]
fn test_format_for_injection() {
    let (state, _) = MemoryState::from_file("Test content\n".to_string(), "/p/AGENTS.md".to_string(), None);
    let formatted = state.format_for_injection().unwrap();
    assert!(formatted.contains("<project-memory source=\"AGENTS.md\">"));
    assert!(formatted.contains("Test content"));
    assert!(formatted.contains("</project-memory>"));
}

#[test]
fn test_reload_if_changed() {
    let mut state = MemoryState::new();
    assert!(!state.is_loaded());
    // The file now exists: the state asks for it to be read again.
    assert_eq!(state.reload_decision(true, Some(10)), ReloadAction::Reload);
    // Reading it gives a loaded state with the file's content.
    let (state, result) = MemoryState::from_file("Initial content\n".to_string(), "/p/AGENTS.md".to_string(), Some(10));
    assert!(matches!(result, LoadResult::Loaded { .. }));
    assert!(state.is_loaded());
    assert!(state.format_for_injection().unwrap().contains("Initial content"));
}

fn parts(v: &[&str]) -> Vec<String> {
    v.iter().map(|s| s.to_string()).collect()
}

#[test]
fn resolved_paths_must_stay_in_the_working_dir() {
    let working = parts(&["/", "home", "me", "proj"]);
    assert!(check_within_working_dir("src/a.rs", &parts(&["/", "home", "me", "proj", "src", "a.rs"]), &working).is_ok());
    assert!(check_within_working_dir(".", &working, &working).is_ok());
    match check_within_working_dir("link", &parts(&["/", "etc", "passwd"]), &working) {
        Err(AgentError::InvalidToolInput(m)) => assert_eq!(m, "Path 'link' resolves outside working directory"),
        other => panic!("unexpected {:?}", other),
    }
    // A sibling whose name only begins like the working directory is outside it.
    assert!(check_within_working_dir("x", &parts(&["/", "home", "me", "project2"]), &working).is_err());
    assert!(check_within_working_dir("x", &parts(&["/", "home"]), &working).is_err());
}

#[test]
fn grep_reports_an_invalid_pattern_even_without_files() {
    match grep_files("(", &vec![]) {
        Err(AgentError::InvalidToolInput(m)) => assert!(m.starts_with("Invalid regex: ")),
        other => panic!("unexpected {:?}", other),
    }
    assert_eq!(grep_files("x", &vec![]).unwrap(), "No matches found");
}
