use devflow::template::service::{TemplateError, TemplateService, COMMIT_FILENAME, REVIEW_COMMENTS_FILENAME};
use devflow::template::types::TemplateContent;

#[test]
fn test_get_defaults() {
    let defaults = TemplateService::get_defaults();
    assert!(defaults.review_comments.contains("{{global_comment}}"));
    assert!(defaults.commit.contains("{{instructions}}"));
}

#[test]
fn test_load_default_templates() {
    let service = TemplateService::with_config_dir("/nonexistent/config".to_string());

    let loaded = service.load_templates(None, None);
    assert!(loaded.review_comments.contains("{{global_comment}}"));
    assert!(loaded.commit.contains("{{instructions}}"));
}

#[test]
fn saved_templates_take_precedence() {
    let service = TemplateService::with_config_dir("/cfg".to_string());
    let loaded = service.load_templates(
        Some("Custom review: {{global_comment}}".to_string()),
        Some("Custom commit: {{instructions}}".to_string()),
    );
    assert_eq!(loaded.review_comments, "Custom review: {{global_comment}}");
    assert_eq!(loaded.commit, "Custom commit: {{instructions}}");
    assert_eq!(service.config_dir(), "/cfg");
}

#[test]
fn test_render_review_comments() {
    let service = TemplateService::with_config_dir("/cfg".to_string());
    let context = r#"{"comments": [{"file": "src/main.rs", "lines": {"start": 10, "end": 15}, "selected_code": "fn main() {}", "text": "Consider adding error handling"}], "global_comment": "Good progress!"}"#;

    let result = service.render_review_comments(None, context).unwrap();
    assert!(result.contains("Good progress!"));
    assert!(result.contains("src/main.rs"));
    assert!(result.contains("Consider adding error handling"));
    assert!(result.contains("(lines 10-15)"));
}

#[test]
fn test_render_commit() {
    let service = TemplateService::with_config_dir("/cfg".to_string());
    let context = r#"{"instructions": "Fix the login bug"}"#;

    let result = service.render_commit(None, context).unwrap();
    assert!(result.contains("Fix the login bug"));
}

#[test]
fn render_uses_the_saved_template() {
    let service = TemplateService::with_config_dir("/cfg".to_string());
    let result = service
        .render_commit(Some("Commit: {{instructions}}".to_string()), r#"{"instructions": "now"}"#)
        .unwrap();
    assert_eq!(result, "Commit: now");
    let review = service
        .render_review_comments(Some("{{global_comment}}!".to_string()), r#"{"global_comment": "ok"}"#)
        .unwrap();
    assert_eq!(review, "ok!");
}

#[test]
fn render_missing_value_is_empty_not_error() {
    let result = TemplateService::render("greeting", "Hello {{name}}!", "{}").unwrap();
    assert_eq!(result, "Hello !");
}

#[test]
fn render_broken_template_is_a_template_error() {
    match TemplateService::render("commit", "{{#if x}}unclosed", "{}") {
        Err(e @ TemplateError::TemplateError(_)) => {
            assert!(e.message().starts_with("Failed to register template: "))
        }
        other => panic!("unexpected {:?}", other),
    }
}

#[test]
fn template_error_messages() {
    assert_eq!(
        TemplateError::NoConfigDir.message(),
        "Could not determine config directory"
    );
    assert_eq!(
        TemplateError::ReadError {
            path: "/a".to_string(),
            detail: "x".to_string()
        }
        .message(),
        "Failed to read template: /a"
    );
}

/// The text saved under a file name, the last one written wins.
fn written(files: &[(String, String)], name: &str) -> Option<String> {
    files.iter().rev().find(|(n, _)| n == name).map(|(_, c)| c.clone())
}

#[test]
fn test_save_and_load_templates() {
    let service = TemplateService::with_config_dir("/cfg".to_string());

    let custom = TemplateContent {
        review_comments: "Custom review: {{global_comment}}".to_string(),
        commit: "Custom commit: {{instructions}}".to_string(),
    };
    let files = service.save_templates(&custom);
    assert_eq!(files.len(), 2);

    let loaded = service.load_templates(
        written(&files, REVIEW_COMMENTS_FILENAME),
        written(&files, COMMIT_FILENAME),
    );
    assert_eq!(loaded.review_comments, custom.review_comments);
    assert_eq!(loaded.commit, custom.commit);
}

#[test]
fn save_templates_writes_review_comments_then_commit() {
    let service = TemplateService::with_config_dir("/cfg".to_string());
    let t = TemplateContent { review_comments: "R".to_string(), commit: "C".to_string() };
    let files = service.save_templates(&t);
    assert_eq!(
        files,
        vec![
            ("review-comments.md".to_string(), "R".to_string()),
            ("commit.md".to_string(), "C".to_string()),
        ]
    );
}
