//! Syntax highlighting of file contents for the diff view: which syntax a file
//! gets, and the HTML of each line (escaped text when highlighting gives none).
use vstd::prelude::*;

use syntect::easy::HighlightLines;
use syntect::highlighting::ThemeSet;
use syntect::html::{styled_line_to_highlighted_html, IncludeBackground};
use syntect::parsing::SyntaxSet;
use syntect::util::LinesWithEndings;

use crate::text::{
    chars_of, find_exec, find_first, owned, replace_all, replace_str, slice_chars, str_eq,
    string_of, strings_view, vecs_view,
};

verus! {

broadcast use vstd::string::group_string_axioms;

#[verifier::external_type_specification]
#[verifier::external_body]
pub struct ExSyntaxSet(syntect::parsing::SyntaxSet);

#[verifier::external_type_specification]
#[verifier::external_body]
pub struct ExThemeSet(syntect::highlighting::ThemeSet);

/// `syntect::parsing::SyntaxSet::load_defaults_newlines`: the bundled syntaxes.
#[verifier::external_body]
fn load_syntax_set() -> (r: SyntaxSet) {
    SyntaxSet::load_defaults_newlines()
}

/// `syntect::highlighting::ThemeSet::load_defaults`: the bundled themes.
#[verifier::external_body]
fn load_theme_set() -> (r: ThemeSet) {
    ThemeSet::load_defaults()
}

/// `j` is the position of the last `c` in `s`.
pub open spec fn is_last_char(s: Seq<char>, c: char, j: int) -> bool {
    &&& 0 <= j < s.len()
    &&& s[j] == c
    &&& forall|k: int| j < k < s.len() ==> s[k] != c
}

/// The position of the last `c` in `s`, if any.
pub open spec fn last_char_at(s: Seq<char>, c: char) -> Option<int> {
    if exists|j: int| is_last_char(s, c, j) {
        Some(choose|j: int| is_last_char(s, c, j))
    } else {
        None
    }
}

/// The last part of a path: the text after its last `/`.
pub open spec fn file_name_of(p: Seq<char>) -> Seq<char> {
    match last_char_at(p, '/') {
        Some(j) => p.skip(j + 1),
        None => p,
    }
}

/// A path that every platform splits the same way: not empty, no `\` and no `:`
/// (so no Windows prefix or separator of its own), not starting with `//`, not
/// ending with `/`, and not ending in a `.` or `..` part.
pub open spec fn plain_path(p: Seq<char>) -> bool {
    &&& p.len() > 0
    &&& forall|i: int| 0 <= i < p.len() ==> #[trigger] p[i] != '\\' && p[i] != ':'
    &&& p.last() != '/'
    &&& !(p.len() >= 2 && p[0] == '/' && p[1] == '/')
    &&& file_name_of(p) != "."@
    &&& file_name_of(p) != ".."@
}

/// The extension of a file name, as `std::path::Path::extension` documents it: the
/// text after the last `.`; none when the name has no `.`, or when its only `.`
/// (its last one) is the first character.
pub open spec fn extension_of_name(name: Seq<char>) -> Option<Seq<char>> {
    match last_char_at(name, '.') {
        Some(j) => if j == 0 {
            None
        } else {
            Some(name.skip(j + 1))
        },
        None => None,
    }
}

/// The extension under which a file is highlighted: its path's extension, or empty
/// when it has none.
pub open spec fn highlight_extension(path: Seq<char>) -> Seq<char> {
    match extension_of_name(file_name_of(path)) {
        Some(e) => e,
        None => seq![],
    }
}

/// `std::path::Path::extension` of a path, as text. For a plain path (see
/// [`plain_path`]) the contract states the documented rule: the extension of the
/// path's last part. For other paths nothing is stated: `\`, drive letters and
/// `//` prefixes are split differently on Windows and elsewhere.
#[verifier::external_body]
fn path_extension(path: &str) -> (r: Option<String>)
    ensures
        plain_path(path@) ==> match r {
            Some(e) => extension_of_name(file_name_of(path@)) == Some(e@),
            None => extension_of_name(file_name_of(path@)) is None,
        },
{
    std::path::Path::new(path).extension().and_then(|e| e.to_str()).map(String::from)
}

/// The lines of a text with their line endings, as `syntect::util::LinesWithEndings`
/// yields them: each ends after a newline; the last may have none.
pub open spec fn lines_with_endings(s: Seq<char>) -> Seq<Seq<char>>
    decreases s.len(),
{
    if s.len() == 0 {
        seq![]
    } else {
        match find_first(s, "\n"@) {
            Some(i) => if 0 <= i < s.len() {
                seq![s.take(i + 1)] + lines_with_endings(s.skip(i + 1))
            } else {
                seq![s]
            },
            None => seq![s],
        }
    }
}

/// What highlighting a text gives with the bundled syntax for a file extension
/// (`SyntaxSet::find_syntax_by_extension` on the bundled syntaxes, then
/// `HighlightLines` with the bundled `base16-ocean.dark` theme and
/// `styled_line_to_highlighted_html` on each line of `LinesWithEndings`): the HTML
/// of each line, `None` for a line whose HTML could not be written; `None` as a
/// whole when no bundled syntax has that extension.
pub uninterp spec fn html_by_extension(extension: Seq<char>, content: Seq<char>) -> Option<
    Seq<Option<Seq<char>>>,
>;

/// What highlighting a text gives with the bundled syntax that its first line
/// selects (`SyntaxSet::find_syntax_by_first_line`), as [`html_by_extension`];
/// `None` when no syntax is selected.
pub uninterp spec fn html_by_first_line(content: Seq<char>) -> Option<Seq<Option<Seq<char>>>>;

/// What highlighting a text gives with the bundled plain-text syntax
/// (`SyntaxSet::find_syntax_plain_text`), as [`html_by_extension`].
pub uninterp spec fn html_plain(content: Seq<char>) -> Seq<Option<Seq<char>>>;

/// The HTML of a file's lines: highlighted with the syntax of its mapped
/// extension, else of its own extension, else of its first line, else as plain
/// text.
pub open spec fn chosen_html(extension: Seq<char>, content: Seq<char>) -> Seq<Option<Seq<char>>> {
    match html_by_extension(mapped_extension(extension), content) {
        Some(h) => h,
        None => match html_by_extension(extension, content) {
            Some(h) => h,
            None => match html_by_first_line(content) {
                Some(h) => h,
                None => html_plain(content),
            },
        },
    }
}

/// The highlighted lines of a file whose extension is `extension`: each line's
/// HTML, or the line escaped where highlighting wrote none.
pub open spec fn highlighted(extension: Seq<char>, content: Seq<char>) -> Seq<Seq<char>> {
    rendered(lines_with_endings(content), Some(chosen_html(extension, content)))
}

/// The extension under which a file's syntax is looked up first: TypeScript and
/// JSX files as JavaScript, `yml` as `yaml`, `md` as `markdown`, C headers and `cc`
/// as `cpp`; others as they are.
pub open spec fn mapped_extension(ext: Seq<char>) -> Seq<char> {
    if ext == "ts"@ || ext == "tsx"@ || ext == "jsx"@ || ext == "mjs"@ || ext == "cjs"@ {
        "js"@
    } else if ext == "yml"@ {
        "yaml"@
    } else if ext == "md"@ {
        "markdown"@
    } else if ext == "h"@ || ext == "hpp"@ || ext == "cc"@ {
        "cpp"@
    } else {
        ext
    }
}

/// The extension under which a file's syntax is looked up first.
pub fn map_extension(ext: &str) -> (r: String)
    ensures
        r@ == mapped_extension(ext@),
{
    if str_eq(ext, "ts") || str_eq(ext, "tsx") || str_eq(ext, "jsx") || str_eq(ext, "mjs")
        || str_eq(ext, "cjs") {
        owned("js")
    } else if str_eq(ext, "yml") {
        owned("yaml")
    } else if str_eq(ext, "md") {
        owned("markdown")
    } else if str_eq(ext, "h") || str_eq(ext, "hpp") || str_eq(ext, "cc") {
        owned("cpp")
    } else {
        owned(ext)
    }
}

/// Text made safe for HTML: `&`, `<` and `>` escaped, in that order.
pub open spec fn escaped(s: Seq<char>) -> Seq<char> {
    replace_all(replace_all(replace_all(s, "&"@, "&amp;"@), "<"@, "&lt;"@), ">"@, "&gt;"@)
}

/// Escapes text for HTML.
pub fn html_escape(s: &str) -> (r: String)
    ensures
        r@ == escaped(s@),
{
    proof {
        reveal_strlit("&");
        reveal_strlit("<");
        reveal_strlit(">");
    }
    let sv = chars_of(s);
    let a = chars_of("&amp;");
    let b = chars_of("&lt;");
    let c = chars_of("&gt;");
    let s1 = replace_str(sv.as_slice(), "&", a.as_slice());
    let s2 = replace_str(s1.as_slice(), "<", b.as_slice());
    let s3 = replace_str(s2.as_slice(), ">", c.as_slice());
    string_of(s3.as_slice())
}

/// The lines of a text with their line endings.
pub fn lines_with_endings_exec(s: &str) -> (r: Vec<String>)
    ensures
        strings_view(r@) == lines_with_endings(s@),
{
    proof {
        reveal_strlit("\n");
    }
    let nl = chars_of("\n");
    let mut rest = chars_of(s);
    let mut out: Vec<String> = Vec::new();
    loop
        invariant
            nl@ == "\n"@,
            nl@.len() == 1,
            strings_view(out@) + lines_with_endings(rest@) == lines_with_endings(s@),
        decreases rest@.len(),
    {
        if rest.len() == 0 {
            assert(strings_view(out@) + lines_with_endings(rest@) =~= strings_view(out@));
            return out;
        }
        let ghost before = out@;
        match find_exec(rest.as_slice(), nl.as_slice()) {
            Some(i) => {
                proof {
                    crate::text::lemma_find_first_some(rest@, nl@);
                }
                let n = rest.len();
                assert(i < n);
                let line = slice_chars(rest.as_slice(), 0, i + 1);
                let after = slice_chars(rest.as_slice(), i + 1, n);
                assert(line@ =~= rest@.take(i + 1));
                assert(after@ =~= rest@.skip(i + 1));
                out.push(string_of(line.as_slice()));
                assert(strings_view(out@) =~= strings_view(before).push(line@));
                assert(strings_view(out@) + lines_with_endings(after@) =~= strings_view(before)
                    + lines_with_endings(rest@));
                rest = after;
            },
            None => {
                out.push(string_of(rest.as_slice()));
                assert(strings_view(out@) =~= strings_view(before) + lines_with_endings(rest@));
                return out;
            },
        }
    }
}

/// The HTML of the lines: each line's highlighted HTML, or the line escaped when
/// there is none.
pub open spec fn rendered(lines: Seq<Seq<char>>, html: Option<Seq<Option<Seq<char>>>>) -> Seq<
    Seq<char>,
> {
    Seq::new(
        lines.len(),
        |i: int|
            match html {
                Some(h) => if i < h.len() {
                    match h[i] {
                        Some(x) => x,
                        None => escaped(lines[i]),
                    }
                } else {
                    escaped(lines[i])
                },
                None => escaped(lines[i]),
            },
    )
}

/// The values of optional texts.
pub open spec fn opt_texts(v: Seq<Option<String>>) -> Seq<Option<Seq<char>>> {
    v.map_values(|o: Option<String>| crate::git::types::opt_str_view(o))
}

/// The value of what highlighting gave.
pub open spec fn html_view(h: Option<Vec<Option<String>>>) -> Option<Seq<Option<Seq<char>>>> {
    match h {
        Some(v) => Some(opt_texts(v@)),
        None => None,
    }
}

/// Combines the lines with what highlighting gave for them.
pub fn render_lines(lines: &Vec<String>, html: Option<Vec<Option<String>>>) -> (r: Vec<String>)
    ensures
        strings_view(r@) == rendered(
            strings_view(lines@),
            html_view(html),
        ),
{
    let ghost hv = html_view(html);
    let ghost want = rendered(strings_view(lines@), hv);
    let mut out: Vec<String> = Vec::new();
    let mut i: usize = 0;
    while i < lines.len()
        invariant
            i <= lines@.len(),
            hv == html_view(html),
            want == rendered(strings_view(lines@), hv),
            strings_view(out@) == want.take(i as int),
        decreases lines@.len() - i,
    {
        let line = lines[i].as_str();
        let piece: String = match &html {
            Some(h) => if i < h.len() {
                match &h[i] {
                    Some(x) => crate::text::copy_string(x.as_str()),
                    None => html_escape(line),
                }
            } else {
                html_escape(line)
            },
            None => html_escape(line),
        };
        assert(piece@ == want[i as int]);
        let ghost before = out@;
        out.push(piece);
        assert(strings_view(out@) =~= strings_view(before).push(want[i as int]));
        assert(want.take(i + 1) =~= want.take(i as int).push(want[i as int]));
        i = i + 1;
    }
    assert(want.take(lines@.len() as int) =~= want);
    out
}

/// Highlights source files with the bundled syntaxes and theme.
pub struct Highlighter {
    syntax_set: SyntaxSet,
    theme_set: ThemeSet,
}

impl Highlighter {
    /// A highlighter with the bundled syntaxes and themes.
    pub fn new() -> (r: Self) {
        Highlighter { syntax_set: load_syntax_set(), theme_set: load_theme_set() }
    }

    /// Highlights `content` with the bundled syntax for `extension`, as
    /// [`html_by_extension`] says. A highlighter holds the bundled syntaxes and
    /// themes: [`Highlighter::new`] is the only way to make one.
    #[verifier::external_body]
    fn highlight_by_extension(&self, extension: &str, content: &str) -> (r: Option<Vec<Option<String>>>)
        ensures
            html_view(r) == html_by_extension(extension@, content@),
    {
        let syntax = self.syntax_set.find_syntax_by_extension(extension)?;
        let mut h = HighlightLines::new(syntax, &self.theme_set.themes["base16-ocean.dark"]);
        Some(LinesWithEndings::from(content).map(|line| styled_line_to_highlighted_html(&h.highlight_line(line, &self.syntax_set).unwrap_or_default(), IncludeBackground::No).ok()).collect())
    }

    /// Highlights `content` with the bundled syntax its first line selects, as
    /// [`html_by_first_line`] says.
    #[verifier::external_body]
    fn highlight_by_first_line(&self, content: &str) -> (r: Option<Vec<Option<String>>>)
        ensures
            html_view(r) == html_by_first_line(content@),
    {
        let syntax = self.syntax_set.find_syntax_by_first_line(content)?;
        let mut h = HighlightLines::new(syntax, &self.theme_set.themes["base16-ocean.dark"]);
        Some(LinesWithEndings::from(content).map(|line| styled_line_to_highlighted_html(&h.highlight_line(line, &self.syntax_set).unwrap_or_default(), IncludeBackground::No).ok()).collect())
    }

    /// Highlights `content` with the bundled plain-text syntax, as [`html_plain`]
    /// says.
    #[verifier::external_body]
    fn highlight_plain(&self, content: &str) -> (r: Vec<Option<String>>)
        ensures
            opt_texts(r@) == html_plain(content@),
    {
        let syntax = self.syntax_set.find_syntax_plain_text();
        let mut h = HighlightLines::new(syntax, &self.theme_set.themes["base16-ocean.dark"]);
        LinesWithEndings::from(content).map(|line| styled_line_to_highlighted_html(&h.highlight_line(line, &self.syntax_set).unwrap_or_default(), IncludeBackground::No).ok()).collect()
    }

    /// The HTML of each line of a file (with its line ending) whose extension is
    /// `extension` (empty when it has none): highlighted by the syntax of the
    /// mapped extension, else of the extension itself, else of the first line, else
    /// as plain text; a line that highlighting gives no HTML for is escaped text.
    pub fn highlight_with_extension(&self, content: &str, extension: &str) -> (r: Vec<String>)
        ensures
            strings_view(r@) == highlighted(extension@, content@),
    {
        let mapped = map_extension(extension);
        let html: Vec<Option<String>> = match self.highlight_by_extension(mapped.as_str(), content) {
            Some(h) => h,
            None => match self.highlight_by_extension(extension, content) {
                Some(h) => h,
                None => match self.highlight_by_first_line(content) {
                    Some(h) => h,
                    None => self.highlight_plain(content),
                },
            },
        };
        assert(opt_texts(html@) == chosen_html(extension@, content@));
        let lines = lines_with_endings_exec(content);
        render_lines(&lines, Some(html))
    }

    /// The HTML of each line of a file (with its line ending), highlighted by the
    /// syntax its path's extension and its first line select (see
    /// [`Highlighter::highlight_with_extension`]). The extension is what
    /// `std::path::Path::extension` finds: for a plain path the contract states it;
    /// for others, whose splitting depends on the platform, it is some extension.
    pub fn highlight_lines(&self, content: &str, file_path: &str) -> (r: Vec<String>)
        ensures
            r@.len() == lines_with_endings(content@).len(),
            plain_path(file_path@) ==> strings_view(r@) == highlighted(
                highlight_extension(file_path@),
                content@,
            ),
            exists|extension: Seq<char>| strings_view(r@) == #[trigger] highlighted(extension, content@),
    {
        let ext = match path_extension(file_path) {
            Some(e) => e,
            None => String::new(),
        };
        let r = self.highlight_with_extension(content, ext.as_str());
        assert(strings_view(r@).len() == r@.len());
        r
    }
}

} // verus!
