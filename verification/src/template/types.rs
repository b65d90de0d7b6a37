//! The template texts and the values they are rendered with.
use vstd::prelude::*;

verus! {

/// The two templates.
#[derive(Debug, Clone)]
pub struct TemplateContent {
    pub review_comments: String,
    pub commit: String,
}

/// A range of lines.
#[derive(Debug, Clone, Copy)]
pub struct LineRange {
    pub start: u32,
    pub end: u32,
}

/// A review comment on selected lines of a file.
#[derive(Debug, Clone)]
pub struct ReviewComment {
    pub file: String,
    pub lines: LineRange,
    pub selected_code: String,
    pub text: String,
}

/// What the review-comments template is rendered with.
#[derive(Debug, Clone)]
pub struct ReviewCommentsContext {
    pub comments: Vec<ReviewComment>,
    pub global_comment: String,
}

/// What the commit template is rendered with.
#[derive(Debug, Clone)]
pub struct CommitContext {
    pub instructions: String,
}

} // verus!
