//! Calls into other crates and into parts of std that vstd does not specify.
//!
//! Every item here is trusted: Verus believes its contract without reading the
//! body. Each doc comment says what the contract claims of the called function.
use vstd::prelude::*;

use crate::text::strings_view;
use scraper::{ElementRef, Html, Selector};

verus! {

/// A character of a lowercase hexadecimal number.
pub open spec fn is_lower_hex(c: char) -> bool {
    ('0' <= c && c <= '9') || ('a' <= c && c <= 'f')
}

/// The hyphenated form of a UUID: 36 characters, hyphens after the 8th, 12th, 16th
/// and 20th digit, lowercase hexadecimal digits elsewhere.
pub open spec fn is_hyphenated_uuid(s: Seq<char>) -> bool {
    &&& s.len() == 36
    &&& forall|i: int|
        0 <= i < 36 ==> if i == 8 || i == 13 || i == 18 || i == 23 {
            #[trigger] s[i] == '-'
        } else {
            is_lower_hex(s[i])
        }
}

/// `uuid::Uuid::new_v4` rendered with `to_string`: a fresh random identifier. Which
/// one depends on chance; every outcome is in the hyphenated lowercase form that
/// `Display` for `Uuid` writes (`LowerHex` of `as_hyphenated`).
#[verifier::external_body]
pub(crate) fn new_uuid_string() -> (r: String)
    ensures
        is_hyphenated_uuid(r@),
{
    uuid::Uuid::new_v4().to_string()
}

/// What `str::to_lowercase` returns for a string: its Unicode lowercase mapping.
pub uninterp spec fn lowercase(s: Seq<char>) -> Seq<char>;

/// `str::to_lowercase`. The contract names the result; the mapping itself
/// (Unicode's lowercase rules) is not written out.
#[verifier::external_body]
pub(crate) fn to_lowercase(s: &str) -> (r: String)
    ensures
        r@ == lowercase(s@),
{
    s.to_lowercase()
}

/// What `regex::Regex::new(pattern)` followed by `is_match(text)` gives:
/// `None` when the pattern does not compile, else whether it matches somewhere in `text`.
pub uninterp spec fn regex_is_match(pattern: Seq<char>, text: Seq<char>) -> Option<bool>;

/// Compiles `pattern` with `regex::Regex::new` and runs `Regex::is_match` on
/// `text`. The contract names the result; the regex semantics are not written out.
#[verifier::external_body]
pub(crate) fn regex_match(pattern: &str, text: &str) -> (r: Option<bool>)
    ensures
        r == regex_is_match(pattern@, text@),
{
    match regex::Regex::new(pattern) {
        Ok(re) => Some(re.is_match(text)),
        Err(_) => None,
    }
}

/// What `format!("{:?}", v)` gives for a list of strings (`["a", "b"]`, each
/// string quoted and escaped as `str`'s `Debug` does).
pub uninterp spec fn debug_strings(v: Seq<Seq<char>>) -> Seq<char>;

/// `format!("{:?}", v)` on a list of strings. The contract names the result;
/// the escaping rules of `Debug` are not written out.
#[verifier::external_body]
pub(crate) fn debug_list(v: &Vec<String>) -> (r: String)
    ensures
        r@ == debug_strings(strings_view(v@)),
{
    format!("{:?}", v)
}

/// What `regex::Regex::new(pattern)` followed by `Regex::replace_all` gives when
/// every match is replaced by the text of its first capture group (the empty
/// string where that group did not take part): `None` when the pattern does not
/// compile.
pub uninterp spec fn regex_replace_with_group(pattern: Seq<char>, text: Seq<char>) -> Option<
    Seq<char>,
>;

/// Compiles `pattern` with `regex::Regex::new` and calls `Regex::replace_all` on
/// `text`, replacing each match by its first capture group. The contract names the
/// result; the regex semantics are not written out.
#[verifier::external_body]
pub(crate) fn regex_replace_group(pattern: &str, text: &str) -> (r: Option<String>)
    ensures
        match r {
            Some(s) => regex_replace_with_group(pattern@, text@) == Some(s@),
            None => regex_replace_with_group(pattern@, text@) is None,
        },
{
    match regex::Regex::new(pattern) {
        Ok(re) => Some(
            re.replace_all(text, |caps: &regex::Captures| caps.get(1).map_or("", |m| m.as_str()).to_string()).to_string(),
        ),
        Err(_) => None,
    }
}

/// A decimal digit.
pub open spec fn is_decimal_digit(c: char) -> bool {
    '0' <= c && c <= '9'
}

/// A date as chrono writes `%Y-%m-%d` for a year from 1970 on: the year in four
/// digits, or `+` and its digits past 9999; then `-`, the month in two digits, `-`
/// and the day in two digits.
pub open spec fn is_date_text(s: Seq<char>) -> bool {
    let n = s.len();
    &&& n >= 10
    &&& s[n - 6] == '-'
    &&& s[n - 3] == '-'
    &&& is_decimal_digit(s[n - 5]) && is_decimal_digit(s[n - 4])
    &&& is_decimal_digit(s[n - 2]) && is_decimal_digit(s[n - 1])
    &&& forall|i: int| 0 <= i < n - 6 ==> (is_decimal_digit(#[trigger] s[i]) || (i == 0 && s[i] == '+'))
}

/// `chrono::Utc::now()` formatted with `%Y-%m-%d`. Which date depends on the clock;
/// every outcome has the shape chrono's formatting writes (`write_year`, then two
/// zero-padded numbers; format/formatting.rs), see [`is_date_text`].
#[verifier::external_body]
pub(crate) fn today_utc() -> (r: String)
    ensures
        is_date_text(r@),
{
    chrono::Utc::now().format("%Y-%m-%d").to_string()
}

/// The text (`Display`) of the error that `regex::Regex::new(pattern)` returns
/// when the pattern does not compile.
pub uninterp spec fn regex_error(pattern: Seq<char>) -> Seq<char>;

/// Compiles `pattern` with `regex::Regex::new` once and runs `Regex::is_match` on
/// each line. The contract says that each answer is what `regex_is_match` names,
/// and names the error text when the pattern does not compile. Whether
/// `Regex::new` compiles depends on the pattern alone: so an error means that
/// `regex_is_match` gives `None` on every text, and success that it gives an
/// answer on every text.
#[verifier::external_body]
pub(crate) fn regex_match_lines(pattern: &str, lines: &Vec<String>) -> (r: Result<Vec<bool>, String>)
    ensures
        match r {
            Ok(v) => v@.len() == lines@.len() && forall|i: int|
                0 <= i < lines@.len() ==> regex_is_match(pattern@, #[trigger] lines@[i]@) == Some(
                    v@[i],
                ),
            Err(m) => m@ == regex_error(pattern@),
        },
        r is Ok ==> forall|t: Seq<char>| (#[trigger] regex_is_match(pattern@, t)) is Some,
        r is Err ==> forall|t: Seq<char>| (#[trigger] regex_is_match(pattern@, t)) is None,
{
    match regex::Regex::new(pattern) {
        Ok(re) => Ok(lines.iter().map(|l| re.is_match(l)).collect()),
        Err(e) => Err(e.to_string()),
    }
}

/// The value of a hexadecimal digit, as `urlencoding` reads it.
pub open spec fn hex_value(b: u8) -> Option<u8> {
    if 48 <= b <= 57 {
        Some((b - 48) as u8)
    } else if 65 <= b <= 70 {
        Some((b - 55) as u8)
    } else if 97 <= b <= 102 {
        Some((b - 87) as u8)
    } else {
        None
    }
}

/// Percent-decoding of bytes: each `%` followed by two hexadecimal digits becomes
/// the byte they spell; every other byte, a lone `%` included, stays.
pub open spec fn percent_decoded_bytes(b: Seq<u8>) -> Seq<u8>
    decreases b.len(),
{
    if b.len() == 0 {
        seq![]
    } else if b[0] == 37 && b.len() >= 3 && hex_value(b[1]) is Some && hex_value(b[2]) is Some {
        seq![(hex_value(b[1]).unwrap() * 16 + hex_value(b[2]).unwrap()) as u8]
            + percent_decoded_bytes(b.skip(3))
    } else {
        seq![b[0]] + percent_decoded_bytes(b.skip(1))
    }
}

/// What `urlencoding::decode` gives: the percent-decoded bytes of the text's UTF-8
/// encoding, read as UTF-8; `None` when they are not valid UTF-8.
pub open spec fn percent_decoded(s: Seq<char>) -> Option<Seq<char>> {
    let b = percent_decoded_bytes(vstd::utf8::encode_utf8(s));
    if vstd::utf8::valid_utf8(b) {
        Some(vstd::utf8::decode_utf8(b))
    } else {
        None
    }
}

/// `urlencoding::decode`, with its error turned into `None`. The contract states
/// the decoding as the crate's source performs it (`decode_binary`, then
/// `String::from_utf8`).
#[verifier::external_body]
pub(crate) fn url_decode(s: &str) -> (r: Option<String>)
    ensures
        match r {
            Some(d) => percent_decoded(s@) == Some(d@),
            None => percent_decoded(s@) is None,
        },
{
    match urlencoding::decode(s) {
        Ok(d) => Some(d.into_owned()),
        Err(_) => None,
    }
}

/// A byte that `urlencoding` leaves as it is: an ASCII letter or digit, or one of
/// `-`, `.`, `_`, `~`.
pub open spec fn is_unreserved(b: u8) -> bool {
    (48 <= b <= 57) || (65 <= b <= 90) || (97 <= b <= 122) || b == 45 || b == 46 || b == 95
        || b == 126
}

/// An uppercase hexadecimal digit.
pub open spec fn hex_digit(d: u8) -> char {
    if d < 10 {
        (48 + d) as char
    } else {
        (55 + d) as char
    }
}

/// Percent-encoding of bytes: unreserved bytes stay, every other byte becomes `%`
/// and its two uppercase hexadecimal digits.
pub open spec fn percent_encoded_bytes(b: Seq<u8>) -> Seq<char>
    decreases b.len(),
{
    if b.len() == 0 {
        seq![]
    } else if is_unreserved(b[0]) {
        seq![b[0] as char] + percent_encoded_bytes(b.skip(1))
    } else {
        seq!['%', hex_digit(b[0] / 16), hex_digit(b[0] % 16)] + percent_encoded_bytes(b.skip(1))
    }
}

/// What `urlencoding::encode` gives: the percent-encoding of the text's UTF-8 bytes.
pub open spec fn percent_encoded(s: Seq<char>) -> Seq<char> {
    percent_encoded_bytes(vstd::utf8::encode_utf8(s))
}

/// `urlencoding::encode`. The contract states the encoding as the crate's source
/// performs it (`encode_binary` on the text's bytes).
#[verifier::external_body]
pub(crate) fn url_encode(s: &str) -> (r: String)
    ensures
        r@ == percent_encoded(s@),
{
    urlencoding::encode(s).into_owned()
}

/// What `glob::Pattern::new(pattern)` and then `Pattern::matches(name)` give:
/// whether the name matches the shell pattern, or `None` when the pattern does not
/// compile.
pub uninterp spec fn glob_matches(pattern: Seq<char>, name: Seq<char>) -> Option<bool>;

/// Compiles a shell pattern with `glob::Pattern::new` and matches a name with
/// `Pattern::matches`. The contract names the result; the pattern language is not
/// written out.
#[verifier::external_body]
pub(crate) fn glob_match(pattern: &str, name: &str) -> (r: Option<bool>)
    ensures
        r == glob_matches(pattern@, name@),
{
    glob::Pattern::new(pattern).ok().map(|p| p.matches(name))
}

/// The parts of one search result of a DuckDuckGo result page: the text pieces of
/// its title link, that link's `href`, the text pieces of its snippet and of its
/// displayed address (each `None` when the element is missing).
#[derive(Debug, Clone)]
pub struct ResultParts {
    pub title: Option<Vec<String>>,
    pub href: Option<String>,
    pub snippet: Option<Vec<String>>,
    pub url_text: Option<Vec<String>>,
}

/// The value of the parts of a search result.
pub struct ResultPartsView {
    pub title: Option<Seq<Seq<char>>>,
    pub href: Option<Seq<char>>,
    pub snippet: Option<Seq<Seq<char>>>,
    pub url_text: Option<Seq<Seq<char>>>,
}

/// The value of optional text pieces.
pub open spec fn opt_pieces(p: Option<Vec<String>>) -> Option<Seq<Seq<char>>> {
    match p {
        Some(v) => Some(strings_view(v@)),
        None => None,
    }
}

/// The value of the parts of a search result.
pub open spec fn parts_view(p: ResultParts) -> ResultPartsView {
    ResultPartsView {
        title: opt_pieces(p.title),
        href: match p.href {
            Some(h) => Some(h@),
            None => None,
        },
        snippet: opt_pieces(p.snippet),
        url_text: opt_pieces(p.url_text),
    }
}

/// What `scraper` finds on a DuckDuckGo result page: for each `.result` element, in
/// document order, the parts of its first `.result__a`, `.result__snippet` and
/// `.result__url` elements; `None` when a selector does not parse.
pub uninterp spec fn result_page_parts(html: Seq<char>) -> Option<Seq<ResultPartsView>>;

/// Parses a result page with `scraper::Html::parse_document` and reads each result
/// with `scraper::Selector`s. The contract names the result; HTML parsing is not
/// written out.
#[verifier::external_body]
pub(crate) fn page_result_parts(html: &str) -> (r: Option<Vec<ResultParts>>)
    ensures
        match r {
            Some(v) => result_page_parts(html@) == Some(v@.map_values(|p: ResultParts| parts_view(p))),
            None => result_page_parts(html@) is None,
        },
{
    let p = |s| Selector::parse(s).ok();
    let (a, sn, u) = (p(".result__a")?, p(".result__snippet")?, p(".result__url")?);
    let texts = |e: ElementRef| e.text().map(String::from).collect();
    Some(Html::parse_document(html).select(&p(".result")?).map(|r| { let t = r.select(&a).next(); ResultParts { title: t.map(texts), href: t.and_then(|e| e.value().attr("href")).map(String::from), snippet: r.select(&sn).next().map(texts), url_text: r.select(&u).next().map(texts) } }).collect())
}

/// What `serde_json::from_str::<serde_json::Value>` followed by `to_string` gives for
/// a text: the compact JSON text of the value it holds, or `None` when the text is
/// not JSON.
pub uninterp spec fn json_compact(text: Seq<char>) -> Option<Seq<char>>;

/// Parses JSON text into a `serde_json::Value` and writes it back compactly. The
/// contract names the result; JSON syntax is not written out.
#[verifier::external_body]
pub(crate) fn parse_json_value(text: &str) -> (r: Option<String>)
    ensures
        match r {
            Some(s) => json_compact(text@) == Some(s@),
            None => json_compact(text@) is None,
        },
{
    serde_json::from_str::<serde_json::Value>(text).ok().map(|v| v.to_string())
}

/// What handlebars (not strict) gives for a template registered under `name` and a
/// context given as JSON text: the rendered text, or an error with its message
/// (which names the template), marked `true` when the template did not register
/// and `false` when rendering failed. A context that is not JSON renders as an
/// empty context.
pub uninterp spec fn handlebars_result(name: Seq<char>, template: Seq<char>, context_json: Seq<char>) -> Result<
    Seq<char>,
    (bool, Seq<char>),
>;

/// Registers `template` under `name` with
/// `handlebars::Handlebars::register_template_string` (strict mode off) and renders
/// it with `Handlebars::render` on the context parsed by `serde_json`. The contract
/// names the result; the template language is not written out.
#[verifier::external_body]
pub(crate) fn handlebars_render(name: &str, template: &str, context_json: &str) -> (r: Result<String, (bool, String)>)
    ensures
        match r {
            Ok(s) => handlebars_result(name@, template@, context_json@) == Ok::<Seq<char>, (bool, Seq<char>)>(s@),
            Err((registering, m)) => handlebars_result(name@, template@, context_json@) == Err::<Seq<char>, (bool, Seq<char>)>((registering, m@)),
        },
{
    let context: serde_json::Value = serde_json::from_str(context_json).unwrap_or(serde_json::Value::Null);
    let mut hb = handlebars::Handlebars::new();
    hb.set_strict_mode(false);
    hb.register_template_string(name, template).map_err(|e| (true, e.to_string()))?;
    hb.render(name, &context).map_err(|e| (false, e.to_string()))
}

} // verus!
