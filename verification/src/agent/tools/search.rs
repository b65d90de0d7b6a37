//! Web search: reading the results of a DuckDuckGo result page, filtering them by
//! domain, and writing them for the model.
use vstd::prelude::*;

use super::context::{cuttable, MAX_OUTPUT_SIZE};
use crate::agent::error::AgentError;
use crate::bindings::{
    lowercase, opt_pieces, page_result_parts, parts_view, percent_decoded, result_page_parts,
    to_lowercase, url_decode, ResultParts, ResultPartsView,
};
use crate::text::{
    before_first, byte_prefix, byte_prefix_exec, chars_of, contains, contains_exec, decimal,
    decimal_exec, find_exec, find_first, join, join_exec, owned, push_all, push_str, slice_chars,
    starts_with, starts_with_str, string_of, strings_view, trim, trim_exec, trim_start_matches,
    trim_start_matches_exec, utf8_len, utf8_len_exceeds, vecs_view, words, words_exec,
};

verus! {

broadcast use vstd::string::group_string_axioms;

/// The number of search results kept when the configuration gives none.
pub const DEFAULT_MAX_RESULTS: usize = 10;

/// One search result.
#[derive(Debug, Clone)]
pub struct SearchResult {
    pub title: String,
    pub url: String,
    pub snippet: String,
}

/// The value of a search result: (title, address, snippet).
pub open spec fn result_view(r: SearchResult) -> (Seq<char>, Seq<char>, Seq<char>) {
    (r.title@, r.url@, r.snippet@)
}

/// The values of search results.
pub open spec fn results_view(v: Seq<SearchResult>) -> Seq<(Seq<char>, Seq<char>, Seq<char>)> {
    v.map_values(|r: SearchResult| result_view(r))
}

/// The domain of an address: what comes before the first `/` once `https://` and
/// `http://` prefixes are removed, in lowercase.
pub open spec fn domain_of(url: Seq<char>) -> Seq<char> {
    lowercase(before_first(trim_start_matches(trim_start_matches(url, "https://"@), "http://"@), "/"@))
}

/// Extracts the domain of an address.
pub fn extract_domain(url: &str) -> (r: String)
    ensures
        r@ == domain_of(url@),
{
    proof {
        reveal_strlit("https://");
        reveal_strlit("http://");
    }
    let uv = chars_of(url);
    let a = chars_of("https://");
    let b = chars_of("http://");
    let t1 = trim_start_matches_exec(uv.as_slice(), a.as_slice());
    let t2 = trim_start_matches_exec(t1.as_slice(), b.as_slice());
    let slash = chars_of("/");
    let host = match find_exec(t2.as_slice(), slash.as_slice()) {
        Some(i) => {
            proof {
                crate::text::lemma_find_first_some(t2@, slash@);
            }
            slice_chars(t2.as_slice(), 0, i)
        },
        None => t2,
    };
    proof {
        if let Some(i) = find_first(t2@, "/"@) {
            assert(t2@.subrange(0, i) =~= t2@.take(i));
        }
    }
    let h = string_of(host.as_slice());
    to_lowercase(h.as_str())
}

/// Some domain of the list occurs in `domain`.
pub open spec fn matches_any(domain: Seq<char>, ds: Seq<Seq<char>>) -> bool {
    exists|i: int| 0 <= i < ds.len() && contains(domain, #[trigger] ds[i])
}

/// Whether a result's address passes the domain filters: with a nonempty list of
/// allowed domains, it must contain one of them; else it must contain none of the
/// blocked ones.
pub open spec fn passes_filters(
    url: Seq<char>,
    allowed: Option<Seq<Seq<char>>>,
    blocked: Option<Seq<Seq<char>>>,
) -> bool {
    let domain = domain_of(url);
    match allowed {
        Some(a) if a.len() > 0 => matches_any(domain, a),
        _ => match blocked {
            Some(b) => !matches_any(domain, b),
            None => true,
        },
    }
}

fn any_contained(domain: &[char], ds: &Vec<String>) -> (r: bool)
    ensures
        r == matches_any(domain@, strings_view(ds@)),
{
    let ghost dv = strings_view(ds@);
    let mut i: usize = 0;
    while i < ds.len()
        invariant
            i <= ds@.len(),
            dv == strings_view(ds@),
            forall|j: int| 0 <= j < i ==> !contains(domain@, #[trigger] dv[j]),
        decreases ds@.len() - i,
    {
        let d = chars_of(ds[i].as_str());
        if contains_exec(domain, d.as_slice()) {
            assert(contains(domain@, dv[i as int]));
            return true;
        }
        i = i + 1;
    }
    false
}

/// Whether a result's address passes the domain filters.
pub fn filter_domain(url: &str, allowed: &Option<Vec<String>>, blocked: &Option<Vec<String>>) -> (r:
    bool)
    ensures
        r == passes_filters(url@, opt_pieces(*allowed), opt_pieces(*blocked)),
{
    let domain = extract_domain(url);
    let dv = chars_of(domain.as_str());
    match allowed {
        Some(a) => {
            if a.len() > 0 {
                return any_contained(dv.as_slice(), a);
            }
        },
        None => {},
    }
    match blocked {
        Some(b) => !any_contained(dv.as_slice(), b),
        None => true,
    }
}

/// How result `i` (counting from 0) is written.
pub open spec fn result_entry(i: nat, r: (Seq<char>, Seq<char>, Seq<char>)) -> Seq<char> {
    decimal(i + 1) + ". **"@ + r.0 + "**\n   "@ + r.1 + "\n   "@ + r.2 + "\n"@
}

/// How results are written: numbered entries separated by newlines.
pub open spec fn results_text(rs: Seq<(Seq<char>, Seq<char>, Seq<char>)>) -> Seq<char> {
    join(Seq::new(rs.len(), |i: int| result_entry(i as nat, rs[i])), "\n"@)
}

/// Writes results as a numbered list: title in bold, address and snippet below.
pub fn format_results(results: &[SearchResult]) -> (r: String)
    ensures
        r@ == results_text(results_view(results@)),
{
    let ghost rv = results_view(results@);
    let ghost want = Seq::new(rv.len(), |i: int| result_entry(i as nat, rv[i]));
    let mut parts: Vec<Vec<char>> = Vec::new();
    let mut i: usize = 0;
    while i < results.len()
        invariant
            i <= results@.len(),
            rv == results_view(results@),
            want == Seq::new(rv.len(), |i: int| result_entry(i as nat, rv[i])),
            vecs_view(parts@) == want.take(i as int),
        decreases results@.len() - i,
    {
        let r = &results[i];
        let mut t = decimal_exec((i + 1) as u64);
        push_str(&mut t, ". **");
        push_str(&mut t, r.title.as_str());
        push_str(&mut t, "**\n   ");
        push_str(&mut t, r.url.as_str());
        push_str(&mut t, "\n   ");
        push_str(&mut t, r.snippet.as_str());
        push_str(&mut t, "\n");
        assert(t@ =~= want[i as int]);
        let ghost before = parts@;
        parts.push(t);
        assert(vecs_view(parts@) =~= vecs_view(before).push(want[i as int]));
        assert(want.take(i + 1) =~= want.take(i as int).push(want[i as int]));
        i = i + 1;
    }
    assert(want.take(results@.len() as int) =~= want);
    let sep = chars_of("\n");
    let r = join_exec(&parts, sep.as_slice());
    string_of(r.as_slice())
}

/// The text of an element: its text pieces joined by spaces, with every run of
/// whitespace collapsed to one space and none at either end.
pub open spec fn element_text(pieces: Seq<Seq<char>>) -> Seq<char> {
    join(words(join(pieces, " "@)), " "@)
}

/// The text of an element from its text pieces.
pub fn normalize_text(pieces: &Vec<String>) -> (r: String)
    ensures
        r@ == element_text(strings_view(pieces@)),
{
    let mut parts: Vec<Vec<char>> = Vec::new();
    let mut i: usize = 0;
    while i < pieces.len()
        invariant
            i <= pieces@.len(),
            vecs_view(parts@) == strings_view(pieces@).take(i as int),
        decreases pieces@.len() - i,
    {
        let ghost before = parts@;
        parts.push(chars_of(pieces[i].as_str()));
        assert(vecs_view(parts@) =~= vecs_view(before).push(pieces@[i as int]@));
        assert(strings_view(pieces@).take(i + 1) =~= strings_view(pieces@).take(i as int).push(
            pieces@[i as int]@,
        ));
        i = i + 1;
    }
    assert(strings_view(pieces@).take(pieces@.len() as int) =~= strings_view(pieces@));
    let space = chars_of(" ");
    let all = join_exec(&parts, space.as_slice());
    let ws = words_exec(all.as_slice());
    let r = join_exec(&ws, space.as_slice());
    string_of(r.as_slice())
}

/// The decoded text, or nothing when it does not decode.
pub open spec fn decoded_or_empty(s: Seq<char>) -> Seq<char> {
    match percent_decoded(s) {
        Some(d) => d,
        None => seq![],
    }
}

/// The address a DuckDuckGo result link leads to: the decoded `uddg` parameter of a
/// redirect link, the link itself when it starts with `http`, else nothing.
pub open spec fn href_target(href: Seq<char>) -> Seq<char> {
    match find_first(href, "uddg="@) {
        Some(start) => {
            let part = href.skip(start + 5);
            match find_first(part, "&"@) {
                Some(end) => decoded_or_empty(part.take(end)),
                None => decoded_or_empty(part),
            }
        },
        None => if starts_with(href, "http"@) {
            href
        } else {
            seq![]
        },
    }
}

fn decode_or_empty(s: &[char]) -> (r: Vec<char>)
    ensures
        r@ == decoded_or_empty(s@),
{
    let t = string_of(s);
    match url_decode(t.as_str()) {
        Some(d) => chars_of(d.as_str()),
        None => Vec::new(),
    }
}

/// The address a DuckDuckGo result link leads to.
pub fn extract_url_from_ddg_href(href: &str) -> (r: String)
    ensures
        r@ == href_target(href@),
{
    proof {
        reveal_strlit("uddg=");
    }
    let hv = chars_of(href);
    let key = chars_of("uddg=");
    match find_exec(hv.as_slice(), key.as_slice()) {
        Some(start) => {
            proof {
                crate::text::lemma_find_first_some(hv@, key@);
            }
            let n = hv.len();
            let m = key.len();
            assert(start + m <= n);
            let part = slice_chars(hv.as_slice(), start + m, n);
            assert(part@ =~= hv@.skip(start + 5));
            let amp = chars_of("&");
            let r = match find_exec(part.as_slice(), amp.as_slice()) {
                Some(end) => {
                    proof {
                        crate::text::lemma_find_first_some(part@, amp@);
                    }
                    let head = slice_chars(part.as_slice(), 0, end);
                    assert(head@ =~= part@.take(end as int));
                    decode_or_empty(head.as_slice())
                },
                None => decode_or_empty(part.as_slice()),
            };
            string_of(r.as_slice())
        },
        None => {
            if starts_with_str(hv.as_slice(), "http") {
                owned(href)
            } else {
                String::new()
            }
        },
    }
}

/// The result that the parts of a result element make: title and snippet as text,
/// the address from the link (or else from the displayed address, with `https://`),
/// kept only when it has a title and an address.
pub open spec fn result_of_parts(p: ResultPartsView) -> Option<(Seq<char>, Seq<char>, Seq<char>)> {
    let title = match p.title {
        Some(t) => element_text(t),
        None => seq![],
    };
    let snippet = match p.snippet {
        Some(t) => element_text(t),
        None => seq![],
    };
    let url = match p.href {
        Some(h) => href_target(h),
        None => match p.url_text {
            Some(t) => "https://"@ + trim(element_text(t)),
            None => seq![],
        },
    };
    if title.len() > 0 && url.len() > 0 {
        Some((title, url, snippet))
    } else {
        None
    }
}

/// The results that the parts of result elements make, in order.
pub open spec fn results_of_parts(ps: Seq<ResultPartsView>) -> Seq<(Seq<char>, Seq<char>, Seq<char>)>
    decreases ps.len(),
{
    if ps.len() == 0 {
        seq![]
    } else {
        match result_of_parts(ps.last()) {
            Some(r) => results_of_parts(ps.drop_last()).push(r),
            None => results_of_parts(ps.drop_last()),
        }
    }
}

fn text_of(p: &Option<Vec<String>>) -> (r: Vec<char>)
    ensures
        r@ == match opt_pieces(*p) {
            Some(t) => element_text(t),
            None => seq![],
        },
{
    match p {
        Some(v) => {
            let t = normalize_text(v);
            chars_of(t.as_str())
        },
        None => Vec::new(),
    }
}

/// The search results of the parts of result elements.
pub fn results_from_parts(parts: &Vec<ResultParts>) -> (r: Vec<SearchResult>)
    ensures
        results_view(r@) == results_of_parts(parts@.map_values(|p: ResultParts| parts_view(p))),
{
    let ghost pv = parts@.map_values(|p: ResultParts| parts_view(p));
    let mut out: Vec<SearchResult> = Vec::new();
    let mut i: usize = 0;
    while i < parts.len()
        invariant
            i <= parts@.len(),
            pv == parts@.map_values(|p: ResultParts| parts_view(p)),
            results_view(out@) == results_of_parts(pv.take(i as int)),
        decreases parts@.len() - i,
    {
        let p = &parts[i];
        assert(pv.take(i + 1).drop_last() =~= pv.take(i as int));
        assert(pv[i as int] == parts_view(*p));
        let title = text_of(&p.title);
        let snippet = text_of(&p.snippet);
        let url: Vec<char> = match &p.href {
            Some(h) => {
                let u = extract_url_from_ddg_href(h.as_str());
                chars_of(u.as_str())
            },
            None => match &p.url_text {
                Some(_) => {
                    let t = text_of(&p.url_text);
                    let mut u = chars_of("https://");
                    let tt = trim_exec(t.as_slice());
                    push_all(&mut u, tt.as_slice());
                    u
                },
                None => Vec::new(),
            },
        };
        if title.len() > 0 && url.len() > 0 {
            let ghost before = out@;
            out.push(
                SearchResult {
                    title: string_of(title.as_slice()),
                    url: string_of(url.as_slice()),
                    snippet: string_of(snippet.as_slice()),
                },
            );
            assert(results_view(out@) =~= results_view(before).push((title@, url@, snippet@)));
        }
        i = i + 1;
    }
    assert(pv.take(parts@.len() as int) =~= pv);
    out
}

/// Reads the results of a DuckDuckGo result page.
pub fn parse_duckduckgo_results(html: &str) -> (r: Result<Vec<SearchResult>, AgentError>)
    ensures
        match result_page_parts(html@) {
            Some(ps) => r matches Ok(v) && results_view(v@) == results_of_parts(ps),
            None => r matches Err(e) && (e matches AgentError::ToolExecutionError(m) && m@
                == "Failed to parse selector"@),
        },
{
    match page_result_parts(html) {
        Some(parts) => Ok(results_from_parts(&parts)),
        None => Err(AgentError::ToolExecutionError(owned("Failed to parse selector"))),
    }
}

/// The results that pass the filters, in order, at most `max`.
pub open spec fn selected_results(
    rs: Seq<(Seq<char>, Seq<char>, Seq<char>)>,
    allowed: Option<Seq<Seq<char>>>,
    blocked: Option<Seq<Seq<char>>>,
    max: nat,
) -> Seq<(Seq<char>, Seq<char>, Seq<char>)>
    decreases rs.len(),
{
    if rs.len() == 0 {
        seq![]
    } else {
        let before = selected_results(rs.drop_last(), allowed, blocked, max);
        if before.len() < max && passes_filters(rs.last().1, allowed, blocked) {
            before.push(rs.last())
        } else {
            before
        }
    }
}

/// What a search returns: the selected results written out, cut after
/// `MAX_OUTPUT_SIZE` bytes with a note giving the full size; or that there were none.
pub open spec fn search_text(selected: Seq<(Seq<char>, Seq<char>, Seq<char>)>) -> Seq<char> {
    if selected.len() == 0 {
        "No results found."@
    } else {
        let out = results_text(selected);
        if utf8_len(out) > MAX_OUTPUT_SIZE {
            byte_prefix(out, MAX_OUTPUT_SIZE as nat) + "...\n(truncated, "@ + decimal(
                (utf8_len(out) as usize) as nat,
            ) + " bytes total)"@
        } else {
            out
        }
    }
}

/// Picks the results that pass the domain filters, at most `max_results` of them.
pub fn select_results(
    results: Vec<SearchResult>,
    allowed: &Option<Vec<String>>,
    blocked: &Option<Vec<String>>,
    max_results: usize,
) -> (r: Vec<SearchResult>)
    ensures
        results_view(r@) == selected_results(
            results_view(results@),
            opt_pieces(*allowed),
            opt_pieces(*blocked),
            max_results as nat,
        ),
{
    let ghost rv = results_view(results@);
    let mut out: Vec<SearchResult> = Vec::new();
    let mut i: usize = 0;
    while i < results.len()
        invariant
            i <= results@.len(),
            rv == results_view(results@),
            results_view(out@) == selected_results(
                rv.take(i as int),
                opt_pieces(*allowed),
                opt_pieces(*blocked),
                max_results as nat,
            ),
        decreases results@.len() - i,
    {
        let r = &results[i];
        assert(rv.take(i + 1).drop_last() =~= rv.take(i as int));
        if out.len() < max_results && filter_domain(r.url.as_str(), allowed, blocked) {
            let ghost before = out@;
            out.push(
                SearchResult {
                    title: crate::text::copy_string(r.title.as_str()),
                    url: crate::text::copy_string(r.url.as_str()),
                    snippet: crate::text::copy_string(r.snippet.as_str()),
                },
            );
            assert(results_view(out@) =~= results_view(before).push(rv[i as int]));
        }
        i = i + 1;
    }
    assert(rv.take(results@.len() as int) =~= rv);
    out
}

/// Writes the selected results as a search returns them.
pub fn search_report(selected: &[SearchResult]) -> (r: String)
    requires
        selected@.len() > 0 ==> cuttable(results_text(results_view(selected@)), MAX_OUTPUT_SIZE as nat),
    ensures
        r@ == search_text(results_view(selected@)),
{
    if selected.len() == 0 {
        return owned("No results found.");
    }
    let out = format_results(selected);
    let ov = chars_of(out.as_str());
    if utf8_len_exceeds(ov.as_slice(), MAX_OUTPUT_SIZE) {
        let mut r = byte_prefix_exec(ov.as_slice(), MAX_OUTPUT_SIZE);
        push_str(&mut r, "...\n(truncated, ");
        let n = crate::text::byte_len(out.as_str());
        let d = decimal_exec(n as u64);
        push_all(&mut r, d.as_slice());
        push_str(&mut r, " bytes total)");
        string_of(r.as_slice())
    } else {
        out
    }
}

/// The address of the DuckDuckGo HTML search for a query.
pub open spec fn search_url_spec(query: Seq<char>) -> Seq<char> {
    "https://html.duckduckgo.com/html/?q="@ + crate::bindings::percent_encoded(query)
}

/// The address of the DuckDuckGo HTML search for a query, the query percent-encoded.
pub fn search_url(query: &str) -> (r: String)
    ensures
        r@ == search_url_spec(query@),
{
    let mut out = chars_of("https://html.duckduckgo.com/html/?q=");
    let q = crate::bindings::url_encode(query);
    push_str(&mut out, q.as_str());
    string_of(out.as_slice())
}

/// A search returns at most `max` results, each from a domain that passes the
/// filters, in the order they were found.
pub proof fn law_selected_results(
    rs: Seq<(Seq<char>, Seq<char>, Seq<char>)>,
    allowed: Option<Seq<Seq<char>>>,
    blocked: Option<Seq<Seq<char>>>,
    max: nat,
)
    ensures
        selected_results(rs, allowed, blocked, max).len() <= max,
        selected_results(rs, allowed, blocked, max).len() <= rs.len(),
        forall|i: int|
            0 <= i < selected_results(rs, allowed, blocked, max).len() ==> passes_filters(
                #[trigger] selected_results(rs, allowed, blocked, max)[i].1,
                allowed,
                blocked,
            ),
        forall|i: int|
            0 <= i < selected_results(rs, allowed, blocked, max).len() ==> rs.contains(
                #[trigger] selected_results(rs, allowed, blocked, max)[i],
            ),
    decreases rs.len(),
{
    if rs.len() > 0 {
        law_selected_results(rs.drop_last(), allowed, blocked, max);
        let before = selected_results(rs.drop_last(), allowed, blocked, max);
        let sel = selected_results(rs, allowed, blocked, max);
        assert forall|i: int| 0 <= i < sel.len() implies rs.contains(#[trigger] sel[i]) by {
            if i < before.len() {
                assert(sel[i] == before[i]);
                assert(rs.drop_last().contains(before[i]));
                let k = choose|k: int| 0 <= k < rs.drop_last().len() && rs.drop_last()[k] == before[i];
                assert(rs[k] == before[i]);
            } else {
                assert(sel[i] == rs[rs.len() - 1]);
            }
        }
        assert forall|i: int| 0 <= i < sel.len() implies passes_filters(#[trigger] sel[i].1, allowed, blocked) by {
            if i < before.len() {
                assert(sel[i] == before[i]);
            }
        }
    }
}

} // verus!
