//! The template service: the default templates, which text is used, and rendering.
use vstd::prelude::*;

use super::types::TemplateContent;
use crate::bindings::{handlebars_render, handlebars_result};
use crate::text::{chars_of, copy_string, owned, push_str, string_of};

verus! {

broadcast use vstd::string::group_string_axioms;

/// The default template of review comments.
pub const DEFAULT_REVIEW_COMMENTS_TEMPLATE: &'static str = "Please review and address the following feedback on your changes:\n\n{{#if global_comment}}\n## Overall Feedback\n\n{{global_comment}}\n\n{{/if}}\n{{#if comments}}\n## Line-specific Comments\n\n{{#each comments}}\n### {{file}} (lines {{lines.start}}-{{lines.end}})\n\n```\n{{selected_code}}\n```\n\n{{text}}\n\n{{/each}}\n{{/if}}\n";

/// The default template of commit requests.
pub const DEFAULT_COMMIT_TEMPLATE: &'static str = "Please create a commit for the current changes.\n{{#if instructions}}\n\n## Instructions\n\n{{instructions}}\n{{/if}}\n";

/// Directory of the templates, in the configuration directory.
pub const TEMPLATES_DIR: &'static str = "templates";

/// File name of the review-comments template.
pub const REVIEW_COMMENTS_FILENAME: &'static str = "review-comments.md";

/// File name of the commit template.
pub const COMMIT_FILENAME: &'static str = "commit.md";

/// What can go wrong with templates.
#[derive(Debug, Clone)]
pub enum TemplateError {
    CreateDirError { path: String, detail: String },
    ReadError { path: String, detail: String },
    WriteError { path: String, detail: String },
    RenderError(String),
    TemplateError(String),
    NoConfigDir,
}

/// The message of a template error.
pub open spec fn template_error_text(e: TemplateError) -> Seq<char> {
    match e {
        TemplateError::CreateDirError { path, .. } => "Failed to create templates directory: "@
            + path@,
        TemplateError::ReadError { path, .. } => "Failed to read template: "@ + path@,
        TemplateError::WriteError { path, .. } => "Failed to write template: "@ + path@,
        TemplateError::RenderError(m) => "Failed to render template: "@ + m@,
        TemplateError::TemplateError(m) => "Failed to register template: "@ + m@,
        TemplateError::NoConfigDir => "Could not determine config directory"@,
    }
}

impl TemplateError {
    /// The message of the error.
    pub fn message(&self) -> (r: String)
        ensures
            r@ == template_error_text(*self),
    {
        let mut out: Vec<char>;
        match self {
            TemplateError::CreateDirError { path, .. } => {
                out = chars_of("Failed to create templates directory: ");
                push_str(&mut out, path.as_str());
            },
            TemplateError::ReadError { path, .. } => {
                out = chars_of("Failed to read template: ");
                push_str(&mut out, path.as_str());
            },
            TemplateError::WriteError { path, .. } => {
                out = chars_of("Failed to write template: ");
                push_str(&mut out, path.as_str());
            },
            TemplateError::RenderError(m) => {
                out = chars_of("Failed to render template: ");
                push_str(&mut out, m.as_str());
            },
            TemplateError::TemplateError(m) => {
                out = chars_of("Failed to register template: ");
                push_str(&mut out, m.as_str());
            },
            TemplateError::NoConfigDir => {
                out = chars_of("Could not determine config directory");
            },
        }
        string_of(out.as_slice())
    }
}

/// `r` is what rendering `template`, registered under `name`, on the JSON context
/// `context_json` gives: the text handlebars renders, or the error it reports, by
/// its kind.
pub open spec fn rendered_as(
    name: Seq<char>,
    template: Seq<char>,
    context_json: Seq<char>,
    r: Result<String, TemplateError>,
) -> bool {
    match handlebars_result(name, template, context_json) {
        Ok(s) => r matches Ok(x) && x@ == s,
        Err((true, m)) => r matches Err(e) && (e matches TemplateError::TemplateError(t) && t@
            == m),
        Err((false, m)) => r matches Err(e) && (e matches TemplateError::RenderError(t) && t@
            == m),
    }
}

/// The template in use: the saved one if there is one, else the default.
pub open spec fn template_in_use(saved: Option<String>, default: Seq<char>) -> Seq<char> {
    match saved {
        Some(t) => t@,
        None => default,
    }
}

/// The text of the last file named `name` among `files`, if any.
pub open spec fn file_text(files: Seq<(String, String)>, name: Seq<char>) -> Option<String>
    decreases files.len(),
{
    if files.len() == 0 {
        None
    } else if files.last().0@ == name {
        Some(files.last().1)
    } else {
        file_text(files.drop_last(), name)
    }
}

/// `files` are the files that saving a review-comments and a commit template
/// writes: the first to the review-comments file, then the second to the commit file.
pub open spec fn saved_files(review_comments: Seq<char>, commit: Seq<char>, files: Seq<(String, String)>) -> bool {
    &&& files.len() == 2
    &&& files[0].0@ == REVIEW_COMMENTS_FILENAME@
    &&& files[0].1@ == review_comments
    &&& files[1].0@ == COMMIT_FILENAME@
    &&& files[1].1@ == commit
}

/// Loads, saves and renders the templates kept in a configuration directory.
#[derive(Debug, Clone)]
pub struct TemplateService {
    config_dir: String,
}

impl TemplateService {
    /// The configuration directory.
    pub closed spec fn dir(&self) -> Seq<char> {
        self.config_dir@
    }

    /// A service that keeps its templates under `config_dir`.
    pub fn with_config_dir(config_dir: String) -> (r: Self)
        ensures
            r.dir() == config_dir@,
    {
        TemplateService { config_dir }
    }

    /// The configuration directory.
    pub fn config_dir(&self) -> (r: &str)
        ensures
            r@ == self.dir(),
    {
        self.config_dir.as_str()
    }

    /// The default templates.
    pub fn get_defaults() -> (r: TemplateContent)
        ensures
            r.review_comments@ == DEFAULT_REVIEW_COMMENTS_TEMPLATE@,
            r.commit@ == DEFAULT_COMMIT_TEMPLATE@,
    {
        TemplateContent {
            review_comments: owned(DEFAULT_REVIEW_COMMENTS_TEMPLATE),
            commit: owned(DEFAULT_COMMIT_TEMPLATE),
        }
    }

    /// The templates in use, from the saved ones that were found (`None` for a
    /// template file that does not exist): each saved template, else its default.
    pub fn load_templates(&self, review_comments: Option<String>, commit: Option<String>) -> (r:
        TemplateContent)
        ensures
            r.review_comments@ == template_in_use(review_comments, DEFAULT_REVIEW_COMMENTS_TEMPLATE@),
            r.commit@ == template_in_use(commit, DEFAULT_COMMIT_TEMPLATE@),
    {
        TemplateContent {
            review_comments: match review_comments {
                Some(t) => t,
                None => owned(DEFAULT_REVIEW_COMMENTS_TEMPLATE),
            },
            commit: match commit {
                Some(t) => t,
                None => owned(DEFAULT_COMMIT_TEMPLATE),
            },
        }
    }

    /// The files that saving the templates writes in the templates directory, in
    /// the order they are written: the review-comments template, then the commit
    /// template, each as (file name, content).
    pub fn save_templates(&self, templates: &TemplateContent) -> (r: Vec<(String, String)>)
        ensures
            saved_files(templates.review_comments@, templates.commit@, r@),
    {
        let mut r: Vec<(String, String)> = Vec::new();
        r.push((owned(REVIEW_COMMENTS_FILENAME), copy_string(templates.review_comments.as_str())));
        r.push((owned(COMMIT_FILENAME), copy_string(templates.commit.as_str())));
        r
    }

    /// Renders a template, registered under `name`, with handlebars (not strict) on
    /// the context given as JSON text; a template that does not register or render
    /// is an error.
    pub fn render(name: &str, template: &str, context_json: &str) -> (r: Result<String, TemplateError>)
        ensures
            rendered_as(name@, template@, context_json@, r),
    {
        match handlebars_render(name, template, context_json) {
            Ok(s) => Ok(s),
            Err((true, m)) => Err(TemplateError::TemplateError(m)),
            Err((false, m)) => Err(TemplateError::RenderError(m)),
        }
    }

    /// Renders the review-comments template in use (`saved`, the one found in the
    /// configuration directory, else the default) on the context given as JSON.
    pub fn render_review_comments(&self, saved: Option<String>, context_json: &str) -> (r: Result<
        String,
        TemplateError,
    >)
        ensures
            rendered_as(
                "review_comments"@,
                template_in_use(saved, DEFAULT_REVIEW_COMMENTS_TEMPLATE@),
                context_json@,
                r,
            ),
    {
        let template = match saved {
            Some(t) => t,
            None => owned(DEFAULT_REVIEW_COMMENTS_TEMPLATE),
        };
        Self::render("review_comments", template.as_str(), context_json)
    }

    /// Renders the commit template in use (`saved`, the one found in the
    /// configuration directory, else the default) on the context given as JSON.
    pub fn render_commit(&self, saved: Option<String>, context_json: &str) -> (r: Result<
        String,
        TemplateError,
    >)
        ensures
            rendered_as("commit"@, template_in_use(saved, DEFAULT_COMMIT_TEMPLATE@), context_json@, r),
    {
        let template = match saved {
            Some(t) => t,
            None => owned(DEFAULT_COMMIT_TEMPLATE),
        };
        Self::render("commit", template.as_str(), context_json)
    }
}

/// Templates that were saved are read back: loading the files that saving wrote
/// gives the saved templates, and with no file saved it gives the defaults.
pub proof fn law_saved_templates_load_back(
    review_comments: Seq<char>,
    commit: Seq<char>,
    files: Seq<(String, String)>,
)
    requires
        saved_files(review_comments, commit, files),
    ensures
        template_in_use(file_text(files, REVIEW_COMMENTS_FILENAME@), DEFAULT_REVIEW_COMMENTS_TEMPLATE@)
            == review_comments,
        template_in_use(file_text(files, COMMIT_FILENAME@), DEFAULT_COMMIT_TEMPLATE@) == commit,
        template_in_use(file_text(Seq::empty(), REVIEW_COMMENTS_FILENAME@), DEFAULT_REVIEW_COMMENTS_TEMPLATE@)
            == DEFAULT_REVIEW_COMMENTS_TEMPLATE@,
        template_in_use(file_text(Seq::empty(), COMMIT_FILENAME@), DEFAULT_COMMIT_TEMPLATE@)
            == DEFAULT_COMMIT_TEMPLATE@,
{
    reveal_strlit("review-comments.md");
    reveal_strlit("commit.md");
    reveal_with_fuel(file_text, 3);
    assert(files.drop_last().last() == files[0]);
    assert(files.drop_last().drop_last().len() == 0);
    assert(REVIEW_COMMENTS_FILENAME@ != COMMIT_FILENAME@) by {
        assert(REVIEW_COMMENTS_FILENAME@.len() != COMMIT_FILENAME@.len());
    }
}

} // verus!
