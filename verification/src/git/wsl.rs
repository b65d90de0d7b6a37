//! WSL path handling: recognises `\\wsl.localhost\` and `\\wsl$\` paths and
//! splits them into the distribution name and the Linux path.
use vstd::prelude::*;

use crate::text::{chars_of, replace_char, slice_chars, starts_with, starts_with_str, string_of};

verus! {

broadcast use vstd::string::group_string_axioms;

/// A path inside a WSL distribution.
#[derive(Debug, Clone)]
pub struct WslPath {
    pub distro: String,
    pub linux_path: String,
}

/// `c` separates path components in a WSL path.
pub open spec fn is_sep(c: char) -> bool {
    c == '\\' || c == '/'
}

/// `j` is the position of the first separator in `s`.
pub open spec fn is_first_sep(s: Seq<char>, j: int) -> bool {
    &&& 0 <= j < s.len()
    &&& is_sep(s[j])
    &&& forall|k: int| 0 <= k < j ==> !is_sep(s[k])
}

/// `p` is a WSL path (modern or legacy prefix).
pub open spec fn is_wsl_spec(p: Seq<char>) -> bool {
    starts_with(p, r"\\wsl.localhost\"@) || starts_with(p, r"\\wsl$\"@)
}

/// The part of a WSL path after its prefix.
pub open spec fn wsl_remainder(p: Seq<char>) -> Option<Seq<char>> {
    if starts_with(p, r"\\wsl.localhost\"@) {
        Some(p.skip(r"\\wsl.localhost\"@.len() as int))
    } else if starts_with(p, r"\\wsl$\"@) {
        Some(p.skip(r"\\wsl$\"@.len() as int))
    } else {
        None
    }
}

/// The distribution and Linux path of a WSL path: the distribution is the text up
/// to the first `\` or `/`, the Linux path is `/` followed by the rest with every
/// `\` turned into `/`; there is none when the distribution is empty.
pub open spec fn wsl_parse_spec(p: Seq<char>) -> Option<(Seq<char>, Seq<char>)> {
    match wsl_remainder(p) {
        None => None,
        Some(r) => {
            let has_sep = exists|j: int| is_first_sep(r, j);
            let j = choose|j: int| is_first_sep(r, j);
            let distro = if has_sep { r.take(j) } else { r };
            let linux = if has_sep {
                seq!['/'] + replace_char(r.skip(j + 1), '\\', '/')
            } else {
                seq!['/']
            };
            if distro.len() == 0 {
                None
            } else {
                Some((distro, linux))
            }
        },
    }
}

/// Whether the path lies inside a WSL distribution. WSL paths exist only on
/// Windows: on any other platform (`on_windows` false) no path is one.
pub fn is_wsl_path(path: &str, on_windows: bool) -> (r: bool)
    ensures
        r == (on_windows && is_wsl_spec(path@)),
{
    if !on_windows {
        return false;
    }
    let p = chars_of(path);
    starts_with_str(p.as_slice(), r"\\wsl.localhost\") || starts_with_str(p.as_slice(), r"\\wsl$\")
}

/// Splits a WSL path into distribution and Linux path; `None` for other paths, and
/// for every path on a platform other than Windows (`on_windows` false).
pub fn parse_wsl_path(path: &str, on_windows: bool) -> (r: Option<WslPath>)
    ensures
        !on_windows ==> r is None,
        on_windows ==> (r matches Some(w) ==> wsl_parse_spec(path@) == Some((w.distro@, w.linux_path@))),
        on_windows ==> (r is None ==> wsl_parse_spec(path@) is None),
{
    if !on_windows {
        return None;
    }
    let p = chars_of(path);
    let modern = chars_of(r"\\wsl.localhost\");
    let legacy = chars_of(r"\\wsl$\");
    let rem = if starts_with_str(p.as_slice(), r"\\wsl.localhost\") {
        slice_chars(p.as_slice(), modern.len(), p.len())
    } else if starts_with_str(p.as_slice(), r"\\wsl$\") {
        slice_chars(p.as_slice(), legacy.len(), p.len())
    } else {
        return None;
    };
    assert(wsl_remainder(path@) == Some(rem@));
    let mut j: usize = 0;
    while j < rem.len() && rem[j] != '\\' && rem[j] != '/'
        invariant
            j <= rem@.len(),
            forall|k: int| 0 <= k < j ==> !is_sep(rem@[k]),
        decreases rem@.len() - j,
    {
        j = j + 1;
    }
    let has_sep = j < rem.len();
    proof {
        if has_sep {
            assert(is_first_sep(rem@, j as int));
            let c = choose|c: int| is_first_sep(rem@, c);
            assert(c == j as int) by {
                if c < j {
                    assert(!is_sep(rem@[c]));
                } else if c > j {
                    assert(!is_sep(rem@[j as int]));
                }
            }
        } else {
            assert(!exists|c: int| is_first_sep(rem@, c)) by {
                if exists|c: int| is_first_sep(rem@, c) {
                    let c = choose|c: int| is_first_sep(rem@, c);
                    assert(!is_sep(rem@[c]));
                }
            }
        }
    }
    let distro = slice_chars(rem.as_slice(), 0, j);
    assert(has_sep ==> distro@ =~= rem@.take(j as int));
    assert(!has_sep ==> distro@ =~= rem@);
    if distro.len() == 0 {
        return None;
    }
    let mut linux: Vec<char> = Vec::new();
    linux.push('/');
    if has_sep {
        let mut k: usize = j + 1;
        let ghost tail = rem@.skip(j + 1);
        while k < rem.len()
            invariant
                j + 1 <= k <= rem@.len(),
                tail == rem@.skip(j + 1),
                linux@ == seq!['/'] + replace_char(tail.take(k - (j + 1)), '\\', '/'),
            decreases rem@.len() - k,
        {
            let c = rem[k];
            linux.push(if c == '\\' { '/' } else { c });
            proof {
                assert(tail.take(k - (j + 1) + 1) =~= tail.take(k - (j + 1)).push(c));
                assert(replace_char(tail.take(k - (j + 1) + 1), '\\', '/') =~= replace_char(
                    tail.take(k - (j + 1)),
                    '\\',
                    '/',
                ).push(if c == '\\' { '/' } else { c }));
            }
            k = k + 1;
        }
        assert(tail.take(k - (j + 1)) =~= tail);
    } else {
        assert(linux@ =~= seq!['/']);
    }
    Some(WslPath { distro: string_of(distro.as_slice()), linux_path: string_of(linux.as_slice()) })
}

proof fn lemma_first_sep_exists(r: Seq<char>, i: int)
    requires
        0 <= i < r.len(),
        is_sep(r[i]),
    ensures
        exists|j: int| is_first_sep(r, j),
    decreases i,
{
    if forall|k: int| 0 <= k < i ==> !is_sep(r[k]) {
        assert(is_first_sep(r, i));
    } else {
        let k = choose|k: int| 0 <= k < i && is_sep(r[k]);
        lemma_first_sep_exists(r, k);
    }
}

/// A parsed WSL path names a distribution without separators, and its Linux path
/// starts at the root and uses `/` alone as separator.
pub proof fn law_wsl_linux_path(p: Seq<char>)
    requires
        wsl_parse_spec(p) is Some,
    ensures
        ({
            let (distro, linux) = wsl_parse_spec(p).unwrap();
            &&& distro.len() > 0
            &&& forall|i: int| 0 <= i < distro.len() ==> !is_sep(#[trigger] distro[i])
            &&& linux.len() >= 1
            &&& linux[0] == '/'
            &&& forall|i: int| 0 <= i < linux.len() ==> #[trigger] linux[i] != '\\'
        }),
{
    let r = wsl_remainder(p).unwrap();
    let (distro, linux) = wsl_parse_spec(p).unwrap();
    if exists|j: int| is_first_sep(r, j) {
        let j = choose|j: int| is_first_sep(r, j);
        assert(distro == r.take(j));
        assert forall|i: int| 0 <= i < distro.len() implies !is_sep(#[trigger] distro[i]) by {
            assert(distro[i] == r[i]);
        }
        let tail = replace_char(r.skip(j + 1), '\\', '/');
        assert(linux == seq!['/'] + tail);
        assert forall|i: int| 0 <= i < linux.len() implies #[trigger] linux[i] != '\\' by {
            if i > 0 {
                assert(linux[i] == tail[i - 1]);
            }
        }
    } else {
        assert forall|i: int| 0 <= i < distro.len() implies !is_sep(#[trigger] distro[i]) by {
            if is_sep(distro[i]) {
                lemma_first_sep_exists(r, i);
            }
        }
    }
}

} // verus!
