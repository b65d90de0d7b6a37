use devflow::agent::tools::search::{
    extract_domain, extract_url_from_ddg_href, filter_domain, format_results, normalize_text,
    parse_duckduckgo_results, search_report, select_results, SearchResult,
};
use devflow::agent::tools::search::search_url;

fn result(title: &str, url: &str, snippet: &str) -> SearchResult {
    SearchResult {
        title: title.to_string(),
        url: url.to_string(),
        snippet: snippet.to_string(),
    }
}

#[test]
fn domains_are_extracted_in_lowercase() {
    assert_eq!(extract_domain("https://Docs.RS/regex/latest"), "docs.rs");
    assert_eq!(extract_domain("http://example.com"), "example.com");
    assert_eq!(extract_domain("example.org/path"), "example.org");
}

#[test]
fn domain_filters() {
    let allowed = Some(vec!["rust-lang.org".to_string()]);
    assert!(filter_domain("https://doc.rust-lang.org/std", &allowed, &None));
    assert!(!filter_domain("https://example.com", &allowed, &None));
    let blocked = Some(vec!["spam".to_string()]);
    assert!(!filter_domain("https://spam.example.com", &None, &blocked));
    assert!(filter_domain("https://good.example.com", &Some(vec![]), &blocked));
}

#[test]
fn results_are_numbered() {
    let text = format_results(&[result("A", "https://a", "sa"), result("B", "https://b", "sb")]);
    assert_eq!(text, "1. **A**\n   https://a\n   sa\n\n2. **B**\n   https://b\n   sb\n");
    assert_eq!(search_report(&[]), "No results found.");
}

#[test]
fn selection_applies_filters_and_limit() {
    let all = vec![
        result("A", "https://a.com", ""),
        result("S", "https://spam.com", ""),
        result("B", "https://b.com", ""),
        result("C", "https://c.com", ""),
    ];
    let chosen = select_results(all, &None, &Some(vec!["spam".to_string()]), 2);
    let titles: Vec<&str> = chosen.iter().map(|r| r.title.as_str()).collect();
    assert_eq!(titles, vec!["A", "B"]);
}

#[test]
fn ddg_links_are_unwrapped() {
    assert_eq!(
        extract_url_from_ddg_href("//duckduckgo.com/l/?uddg=https%3A%2F%2Fexample.com%2Fa%20b&rut=x"),
        "https://example.com/a b"
    );
    assert_eq!(
        extract_url_from_ddg_href("//duckduckgo.com/l/?uddg=https%3A%2F%2Fexample.com"),
        "https://example.com"
    );
    assert_eq!(extract_url_from_ddg_href("https://direct.example"), "https://direct.example");
    assert_eq!(extract_url_from_ddg_href("/relative"), "");
}

#[test]
fn text_is_normalized() {
    let pieces = vec!["  Hello\n".to_string(), "  world ".to_string()];
    assert_eq!(normalize_text(&pieces), "Hello world");
}

#[test]
fn duckduckgo_page_is_parsed() {
    let html = r#"<html><body>
<div class="result">
  <a class="result__a" href="//duckduckgo.com/l/?uddg=https%3A%2F%2Fwww.rust-lang.org%2F&amp;rut=abc">The <b>Rust</b> Language</a>
  <a class="result__snippet">A language empowering   everyone</a>
</div>
<div class="result">
  <a class="result__a">No link</a>
  <span class="result__url"> example.com/page </span>
</div>
<div class="result">
  <span class="result__snippet">no title</span>
</div>
</body></html>"#;
    let results = parse_duckduckgo_results(html).unwrap();
    assert_eq!(results.len(), 2);
    assert_eq!(results[0].title, "The Rust Language");
    assert_eq!(results[0].url, "https://www.rust-lang.org/");
    assert_eq!(results[0].snippet, "A language empowering everyone");
    assert_eq!(results[1].title, "No link");
    assert_eq!(results[1].url, "https://example.com/page");
    assert_eq!(results[1].snippet, "");
}

#[test]
fn search_url_encodes_the_query() {
    assert_eq!(
        search_url("rust verus & café"),
        "https://html.duckduckgo.com/html/?q=rust%20verus%20%26%20caf%C3%A9"
    );
    assert_eq!(search_url("a-b_c.d~e"), "https://html.duckduckgo.com/html/?q=a-b_c.d~e");
}
