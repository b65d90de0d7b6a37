//! Limits and checks shared by the tools: the cap on tool output, which paths a
//! tool may touch, and how a failed operation is reported.
use vstd::prelude::*;

use crate::agent::error::AgentError;
use crate::text::{
    byte_prefix, byte_prefix_exec, chars_of, is_char_boundary, push_str, string_of, utf8_len,
    utf8_len_exceeds,
};

verus! {

broadcast use vstd::string::group_string_axioms;

/// The most bytes of output a tool returns.
pub const MAX_OUTPUT_SIZE: usize = 1024 * 1024;

/// `s` can be cut after `max` bytes without splitting a character, or is no longer.
pub open spec fn cuttable(s: Seq<char>, max: nat) -> bool {
    utf8_len(s) <= max || is_char_boundary(s, max)
}

/// Tool output as returned: cut after `MAX_OUTPUT_SIZE` bytes, with a note, when
/// longer.
pub open spec fn capped_output(s: Seq<char>) -> Seq<char> {
    if utf8_len(s) > MAX_OUTPUT_SIZE {
        byte_prefix(s, MAX_OUTPUT_SIZE as nat) + "\n... (output truncated)"@
    } else {
        s
    }
}

/// Cuts tool output after `MAX_OUTPUT_SIZE` bytes, adding a note, when it is longer.
pub fn truncate_output(output: String) -> (r: String)
    requires
        cuttable(output@, MAX_OUTPUT_SIZE as nat),
    ensures
        r@ == capped_output(output@),
{
    let ov = chars_of(output.as_str());
    if utf8_len_exceeds(ov.as_slice(), MAX_OUTPUT_SIZE) {
        let mut r = byte_prefix_exec(ov.as_slice(), MAX_OUTPUT_SIZE);
        push_str(&mut r, "\n... (output truncated)");
        string_of(r.as_slice())
    } else {
        output
    }
}

/// A component of a path, as `std::path::Path::components` yields it.
#[derive(Debug, Clone, Copy, PartialEq, Eq, Structural)]
pub enum PathComponent {
    /// A drive or share prefix (Windows).
    Prefix,
    /// The root.
    RootDir,
    /// `.`
    CurDir,
    /// `..`
    ParentDir,
    /// A name.
    Normal,
}

/// Why a path is refused, if it is: an absolute path; else the first `..` or
/// prefix component.
pub open spec fn path_refusal(absolute: bool, components: Seq<PathComponent>) -> Option<Seq<char>>
    decreases components.len(),
{
    if absolute {
        Some("Absolute paths are not allowed"@)
    } else if components.len() == 0 {
        None
    } else {
        match path_refusal(false, components.drop_last()) {
            Some(m) => Some(m),
            None => match components.last() {
                PathComponent::ParentDir => Some("Path traversal ('..') is not allowed"@),
                PathComponent::Prefix => Some("Invalid path component"@),
                _ => None,
            },
        }
    }
}

/// Checks a path that a tool was given: absolute paths, `..` components and
/// prefixes are refused.
pub fn check_path_components(absolute: bool, components: &Vec<PathComponent>) -> (r: Result<
    (),
    AgentError,
>)
    ensures
        match path_refusal(absolute, components@) {
            Some(m) => r matches Err(e) && (e matches AgentError::InvalidToolInput(t) && t@ == m),
            None => r is Ok,
        },
{
    if absolute {
        return Err(AgentError::InvalidToolInput(crate::text::owned("Absolute paths are not allowed")));
    }
    let mut i: usize = 0;
    assert(components@.take(0) =~= Seq::<PathComponent>::empty());
    while i < components.len()
        invariant
            i <= components@.len(),
            !absolute,
            path_refusal(false, components@.take(i as int)) is None,
        decreases components@.len() - i,
    {
        assert(components@.take(i + 1).drop_last() =~= components@.take(i as int));
        match components[i] {
            PathComponent::ParentDir => {
                proof {
                    lemma_refusal_stays(components@, i + 1);
                }
                return Err(
                    AgentError::InvalidToolInput(
                        crate::text::owned("Path traversal ('..') is not allowed"),
                    ),
                );
            },
            PathComponent::Prefix => {
                proof {
                    lemma_refusal_stays(components@, i + 1);
                }
                return Err(AgentError::InvalidToolInput(crate::text::owned("Invalid path component")));
            },
            _ => {},
        }
        i = i + 1;
    }
    assert(components@.take(components@.len() as int) =~= components@);
    Ok(())
}

/// Once a prefix of the components is refused, the whole path is, for that reason.
proof fn lemma_refusal_stays(cs: Seq<PathComponent>, k: int)
    requires
        0 <= k <= cs.len(),
        path_refusal(false, cs.take(k)) is Some,
    ensures
        path_refusal(false, cs) == path_refusal(false, cs.take(k)),
    decreases cs.len() - k,
{
    if k < cs.len() {
        assert(cs.take(k + 1).drop_last() =~= cs.take(k));
        lemma_refusal_stays(cs, k + 1);
    } else {
        assert(cs.take(k) =~= cs);
    }
}

/// The error for a path that resolves outside the working directory.
pub fn outside_working_dir(path_display: &str) -> (r: AgentError)
    ensures
        r matches AgentError::InvalidToolInput(m) && m@ == "Path '"@ + path_display@
            + "' resolves outside working directory"@,
{
    let mut m = chars_of("Path '");
    push_str(&mut m, path_display);
    push_str(&mut m, "' resolves outside working directory");
    AgentError::InvalidToolInput(string_of(m.as_slice()))
}

/// The error for an operation that failed before its time ran out.
pub fn operation_failed(operation: &str, detail: &str) -> (r: AgentError)
    ensures
        r matches AgentError::ToolExecutionError(m) && m@ == "Failed to "@ + operation@ + ": "@
            + detail@,
{
    let mut m = chars_of("Failed to ");
    push_str(&mut m, operation);
    push_str(&mut m, ": ");
    push_str(&mut m, detail);
    AgentError::ToolExecutionError(string_of(m.as_slice()))
}

/// A fetched page as returned: cut after `MAX_OUTPUT_SIZE` bytes, with a note of
/// its full size, when longer.
pub open spec fn fetched_spec(s: Seq<char>) -> Seq<char> {
    if utf8_len(s) > MAX_OUTPUT_SIZE {
        byte_prefix(s, MAX_OUTPUT_SIZE as nat) + "...\n(truncated, "@ + crate::text::decimal(
            (utf8_len(s) as usize) as nat,
        ) + " bytes total)"@
    } else {
        s
    }
}

/// Cuts a fetched page after `MAX_OUTPUT_SIZE` bytes, noting its full size, when it
/// is longer.
pub fn fetched_content(content: String) -> (r: String)
    requires
        cuttable(content@, MAX_OUTPUT_SIZE as nat),
    ensures
        r@ == fetched_spec(content@),
{
    let cv = chars_of(content.as_str());
    if utf8_len_exceeds(cv.as_slice(), MAX_OUTPUT_SIZE) {
        let total = crate::text::byte_len(content.as_str());
        let mut r = byte_prefix_exec(cv.as_slice(), MAX_OUTPUT_SIZE);
        push_str(&mut r, "...\n(truncated, ");
        let d = crate::text::decimal_exec(total as u64);
        crate::text::push_all(&mut r, d.as_slice());
        push_str(&mut r, " bytes total)");
        string_of(r.as_slice())
    } else {
        content
    }
}

/// The error of a fetch that the server answered with a failure status.
pub fn http_status_error(status: &str) -> (r: AgentError)
    ensures
        r matches AgentError::ToolExecutionError(m) && m@ == "HTTP error: "@ + status@,
{
    let mut m = chars_of("HTTP error: ");
    push_str(&mut m, status);
    AgentError::ToolExecutionError(string_of(m.as_slice()))
}

/// The values of a list of path components given as text.
pub open spec fn component_texts(v: Seq<String>) -> Seq<Seq<char>> {
    v.map_values(|s: String| s@)
}

/// Whether a path, given by its components, lies in a directory: the directory's
/// components begin it (`std::path::Path::starts_with`).
pub open spec fn lies_within(path: Seq<Seq<char>>, dir: Seq<Seq<char>>) -> bool {
    dir.len() <= path.len() && path.take(dir.len() as int) == dir
}

/// Checks that an existing path, after following links (`canonical`), lies in the
/// working directory, after following links too (`working`); both are given by
/// their components. `path_display` is the path as the tool received it.
pub fn check_within_working_dir(
    path_display: &str,
    canonical: &Vec<String>,
    working: &Vec<String>,
) -> (r: Result<(), AgentError>)
    ensures
        lies_within(component_texts(canonical@), component_texts(working@)) ==> r is Ok,
        !lies_within(component_texts(canonical@), component_texts(working@)) ==> (r matches Err(
            AgentError::InvalidToolInput(m),
        ) && m@ == "Path '"@ + path_display@ + "' resolves outside working directory"@),
{
    let ghost p = component_texts(canonical@);
    let ghost d = component_texts(working@);
    if working.len() > canonical.len() {
        return Err(outside_working_dir(path_display));
    }
    let mut i: usize = 0;
    while i < working.len()
        invariant
            working@.len() <= canonical@.len(),
            i <= working@.len(),
            p == component_texts(canonical@),
            d == component_texts(working@),
            forall|j: int| 0 <= j < i ==> p[j] == d[j],
        decreases working@.len() - i,
    {
        if !crate::text::str_eq(canonical[i].as_str(), working[i].as_str()) {
            proof {
                assert(p.take(d.len() as int)[i as int] != d[i as int]);
            }
            return Err(outside_working_dir(path_display));
        }
        i = i + 1;
    }
    assert(p.take(d.len() as int) =~= d);
    Ok(())
}

} // verus!
