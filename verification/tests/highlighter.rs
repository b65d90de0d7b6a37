use devflow::git::highlighter::{html_escape, lines_with_endings_exec, map_extension, render_lines, Highlighter};
use devflow::git::diff_parser::parse_unified_diff;
use devflow::git::diff_view::apply_syntax_highlighting;
use devflow::git::types::{FileDiff, FileStatus, LineKind};

#[test]
fn test_highlight_rust() {
    let highlighter = Highlighter::new();
    let code = "fn main() {\n    println!(\"Hello\");\n}";
    let highlighted = highlighter.highlight_lines(code, "test.rs");

    assert_eq!(highlighted.len(), 3);
    assert!(highlighted[0].contains("<span"));
}

#[test]
fn test_highlight_tsx() {
    let highlighter = Highlighter::new();
    let code = "export function App() {\n  return <div>Hello</div>;\n}";
    let highlighted = highlighter.highlight_lines(code, "test.tsx");

    assert_eq!(highlighted.len(), 3);
    assert!(
        highlighted[0].contains("<span"),
        "TSX should be syntax highlighted via JS fallback"
    );
}

#[test]
fn test_highlight_typescript() {
    let highlighter = Highlighter::new();
    let code = "const x: number = 42;";
    let highlighted = highlighter.highlight_lines(code, "test.ts");

    assert_eq!(highlighted.len(), 1);
    assert!(
        highlighted[0].contains("<span"),
        "TypeScript should be syntax highlighted via JS fallback"
    );
}

#[test]
fn test_highlight_jsx() {
    let highlighter = Highlighter::new();
    let code = "const element = <h1>Hello</h1>;";
    let highlighted = highlighter.highlight_lines(code, "test.jsx");

    assert_eq!(highlighted.len(), 1);
    assert!(
        highlighted[0].contains("<span"),
        "JSX should be syntax highlighted via JS fallback"
    );
}

#[test]
fn test_highlight_unknown_extension() {
    let highlighter = Highlighter::new();
    let code = "some plain text";
    let highlighted = highlighter.highlight_lines(code, "file.unknownext");

    assert_eq!(highlighted.len(), 1);
}

#[test]
fn test_highlight_empty() {
    let highlighter = Highlighter::new();
    let highlighted = highlighter.highlight_lines("", "test.rs");

    assert!(highlighted.is_empty());
}

#[test]
fn extensions_map_to_bundled_syntaxes() {
    assert_eq!(map_extension("tsx"), "js");
    assert_eq!(map_extension("yml"), "yaml");
    assert_eq!(map_extension("rs"), "rs");
}

#[test]
fn escaping_and_line_splitting() {
    assert_eq!(html_escape("a<b>&c"), "a&lt;b&gt;&amp;c");
    assert_eq!(
        lines_with_endings_exec("a\nb\n\nc"),
        vec!["a\n".to_string(), "b\n".to_string(), "\n".to_string(), "c".to_string()]
    );
    assert!(lines_with_endings_exec("").is_empty());
    let lines = vec!["x<\n".to_string(), "y".to_string()];
    assert_eq!(
        render_lines(&lines, None),
        vec!["x&lt;\n".to_string(), "y".to_string()]
    );
    assert_eq!(
        render_lines(&lines, Some(vec![Some("<b>x</b>".to_string()), None])),
        vec!["<b>x</b>".to_string(), "y".to_string()]
    );
}

#[test]
fn diff_lines_are_highlighted_in_order() {

    let highlighter = Highlighter::new();
    let hunks = parse_unified_diff("@@ -1,2 +1,2 @@\n fn a() {}\n-let old = 1;\n+let new = 2;\n");
    let diff = FileDiff {
        path: "x.rs".to_string(),
        status: FileStatus::Modified,
        hunks,
    };
    let whole = highlighter.highlight_lines("fn a() {}\nlet new = 2;", "x.rs");
    let alone = highlighter.highlight_lines("let old = 1;", "x.rs");
    let out = apply_syntax_highlighting(&highlighter, diff);
    assert_eq!(out.path, "x.rs");
    let lines = &out.hunks[0].lines;
    assert_eq!(lines.len(), 3);
    assert_eq!(lines[0].highlighted.as_deref(), Some(whole[0].as_str()));
    assert_eq!(lines[1].kind, LineKind::Deletion);
    assert_eq!(lines[1].highlighted.as_deref(), Some(alone[0].as_str()));
    assert_eq!(lines[2].highlighted.as_deref(), Some(whole[1].as_str()));
    assert_eq!(lines[2].content, "let new = 2;");
}

#[test]
fn highlight_with_extension_uses_the_js_fallback() {
    let highlighter = Highlighter::new();
    let code = "export function App() {\n  return <div>Hello</div>;\n}";
    let by_ext = highlighter.highlight_with_extension(code, "tsx");
    assert_eq!(by_ext.len(), 3);
    assert!(by_ext[0].contains("<span"));
    assert_eq!(by_ext, highlighter.highlight_lines(code, "src/App.tsx"));
}

#[test]
fn highlight_without_extension_falls_back_to_first_line_or_plain_text() {
    let highlighter = Highlighter::new();
    let script = "#!/bin/bash\necho hi\n";
    let lines = highlighter.highlight_with_extension(script, "");
    assert_eq!(lines.len(), 2);
    assert_eq!(lines, highlighter.highlight_lines(script, "run"));
}

#[test]
fn highlight_lines_uses_the_path_extension() {
    let highlighter = Highlighter::new();
    let code = "x = 1\n";
    assert_eq!(highlighter.highlight_lines(code, "dir/.bashrc"), highlighter.highlight_with_extension(code, ""));
    assert_eq!(highlighter.highlight_lines(code, "a.b/script.py"), highlighter.highlight_with_extension(code, "py"));
    assert_eq!(highlighter.highlight_lines(code, "Makefile"), highlighter.highlight_with_extension(code, ""));
}
