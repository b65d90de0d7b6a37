//! Project memory: the `AGENTS.md` file of a project, capped in size, injected
//! into the system prompt and reloaded when it changes.
use vstd::prelude::*;

use crate::text::{byte_len, chars_of, push_str, slice_chars, string_of, utf8_len};

verus! {

broadcast use vstd::string::group_string_axioms;

/// The most characters of project memory that are kept.
pub const MAX_CHAR_COUNT: usize = 50_000;

/// The project memory of a session.
#[derive(Debug)]
pub struct MemoryState {
    content: Option<String>,
    char_count: usize,
    truncated: bool,
    /// Modification time of the file, in nanoseconds from the Unix epoch.
    last_modified: Option<i128>,
}

/// What loading the project memory gave.
#[derive(Debug)]
pub enum LoadResult {
    Loaded { path: String, char_count: u32, truncated: bool },
    NotFound,
    Error(String),
}

/// What a reload check decided.
#[derive(Debug, Clone, Copy, PartialEq, Eq, Structural)]
pub enum ReloadAction {
    /// Nothing changed; the state is kept.
    Unchanged,
    /// The file is gone; the state was cleared.
    Cleared,
    /// The file changed; it is to be loaded again.
    Reload,
}

/// The note appended to capped memory.
pub open spec fn truncation_note() -> Seq<char> {
    "\n\n[Content truncated at 50000 characters]"@
}

/// The memory kept of a file's content, and whether it was capped: at most
/// `MAX_CHAR_COUNT` characters, followed by a note when cut.
pub open spec fn kept_memory(content: Seq<char>) -> (Seq<char>, bool) {
    if content.len() > MAX_CHAR_COUNT {
        (content.take(MAX_CHAR_COUNT as int) + truncation_note(), true)
    } else {
        (content, false)
    }
}

/// Whether a file must be loaded again, from its current and its last known
/// modification times.
pub open spec fn changed(current: Option<i128>, last: Option<i128>) -> bool {
    match (current, last) {
        (Some(c), Some(l)) => c != l,
        (Some(_), None) => true,
        (None, _) => false,
    }
}

impl MemoryState {
    /// The memory text, if loaded.
    pub closed spec fn text(&self) -> Option<Seq<char>> {
        match self.content {
            Some(c) => Some(c@),
            None => None,
        }
    }

    /// The size of the memory text in bytes.
    pub closed spec fn size(&self) -> usize {
        self.char_count
    }

    /// Whether the memory was capped.
    pub closed spec fn was_truncated(&self) -> bool {
        self.truncated
    }

    /// The modification time of the file that was loaded.
    pub closed spec fn modified(&self) -> Option<i128> {
        self.last_modified
    }

    /// No memory.
    pub fn new() -> (r: Self)
        ensures
            r.text() is None,
            r.size() == 0,
            !r.was_truncated(),
            r.modified() is None,
    {
        MemoryState { content: None, char_count: 0, truncated: false, last_modified: None }
    }

    /// The memory of a file that was read: its content capped at `MAX_CHAR_COUNT`
    /// characters, with the load reported for `path`.
    pub fn from_file(content: String, path: String, last_modified: Option<i128>) -> (r: (
        Self,
        LoadResult,
    ))
        ensures
            r.0.text() == Some(kept_memory(content@).0),
            r.0.size() == utf8_len(kept_memory(content@).0) as usize,
            r.0.was_truncated() == kept_memory(content@).1,
            r.0.modified() == last_modified,
            r.1 matches LoadResult::Loaded { path: p, char_count, truncated } && p@ == path@
                && char_count == r.0.size() as u32 && truncated == kept_memory(content@).1,
    {
        let cv = chars_of(content.as_str());
        let (text, truncated) = if cv.len() > MAX_CHAR_COUNT {
            let mut t = slice_chars(cv.as_slice(), 0, MAX_CHAR_COUNT);
            push_str(&mut t, "\n\n[Content truncated at 50000 characters]");
            (string_of(t.as_slice()), true)
        } else {
            (content, false)
        };
        let char_count = byte_len(text.as_str());
        let state = MemoryState {
            content: Some(text),
            char_count,
            truncated,
            last_modified,
        };
        (state, LoadResult::Loaded { path, char_count: char_count as u32, truncated })
    }

    /// Decides what a reload check does, given whether the file exists and its
    /// modification time: a vanished file clears loaded memory; a changed file is to
    /// be loaded again; otherwise nothing happens.
    pub fn reload_decision(&mut self, exists: bool, current_modified: Option<i128>) -> (r:
        ReloadAction)
        ensures
            !exists ==> (if old(self).text() is Some {
                r == ReloadAction::Cleared && final(self).text() is None && final(self).size() == 0
                    && !final(self).was_truncated() && final(self).modified() is None
            } else {
                r == ReloadAction::Unchanged
            }),
            exists ==> (r == if changed(current_modified, old(self).modified()) {
                ReloadAction::Reload
            } else {
                ReloadAction::Unchanged
            }),
            r != ReloadAction::Cleared ==> final(self).text() == old(self).text(),
            r != ReloadAction::Cleared ==> final(self).size() == old(self).size(),
            r != ReloadAction::Cleared ==> final(self).was_truncated() == old(self).was_truncated(),
            r != ReloadAction::Cleared ==> final(self).modified() == old(self).modified(),
    {
        if !exists {
            if self.content.is_some() {
                *self = MemoryState::new();
                return ReloadAction::Cleared;
            }
            return ReloadAction::Unchanged;
        }
        let needs_reload = match (current_modified, self.last_modified) {
            (Some(c), Some(l)) => c != l,
            (Some(_), None) => true,
            (None, _) => false,
        };
        if needs_reload {
            ReloadAction::Reload
        } else {
            ReloadAction::Unchanged
        }
    }

    /// The memory wrapped for the system prompt.
    pub fn format_for_injection(&self) -> (r: Option<String>)
        ensures
            match self.text() {
                Some(t) => r matches Some(s) && s@ == "<project-memory source=\"AGENTS.md\">\n"@
                    + t + "\n</project-memory>"@,
                None => r is None,
            },
    {
        match &self.content {
            Some(content) => {
                let mut out = chars_of("<project-memory source=\"AGENTS.md\">\n");
                push_str(&mut out, content.as_str());
                push_str(&mut out, "\n</project-memory>");
                Some(string_of(out.as_slice()))
            },
            None => None,
        }
    }

    /// The size of the memory text in bytes.
    pub fn char_count(&self) -> (r: usize)
        ensures
            r == self.size(),
    {
        self.char_count
    }

    /// Whether the memory was capped.
    pub fn is_truncated(&self) -> (r: bool)
        ensures
            r == self.was_truncated(),
    {
        self.truncated
    }

    /// Whether memory is loaded.
    pub fn is_loaded(&self) -> (r: bool)
        ensures
            r == self.text() is Some,
    {
        self.content.is_some()
    }
}

impl Default for MemoryState {
    fn default() -> (r: Self)
        ensures
            r.text() is None,
            r.size() == 0,
            !r.was_truncated(),
            r.modified() is None,
    {
        MemoryState::new()
    }
}

/// The report of a file that could not be accessed or read: `action` is what
/// failed (`access` or `read`), `detail` the error's text.
pub fn load_error(action: &str, detail: &str) -> (r: LoadResult)
    ensures
        r matches LoadResult::Error(m) && m@ == "Cannot "@ + action@ + " AGENTS.md: "@ + detail@,
{
    let mut m = chars_of("Cannot ");
    push_str(&mut m, action);
    push_str(&mut m, " AGENTS.md: ");
    push_str(&mut m, detail);
    LoadResult::Error(string_of(m.as_slice()))
}

/// Loaded memory never keeps more than `MAX_CHAR_COUNT` characters of the file,
/// and keeps all of a file that fits.
pub proof fn law_memory_is_capped(content: Seq<char>)
    ensures
        kept_memory(content).0.len() <= MAX_CHAR_COUNT + truncation_note().len(),
        content.len() <= MAX_CHAR_COUNT ==> kept_memory(content).0 == content && !kept_memory(
            content,
        ).1,
        content.len() > MAX_CHAR_COUNT ==> kept_memory(content).0.take(MAX_CHAR_COUNT as int)
            == content.take(MAX_CHAR_COUNT as int),
{
    if content.len() > MAX_CHAR_COUNT {
        assert(kept_memory(content).0.take(MAX_CHAR_COUNT as int) =~= content.take(
            MAX_CHAR_COUNT as int,
        ));
    }
}

} // verus!
