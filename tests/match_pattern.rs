use servoshell::match_pattern::{HostMatch, MatchPattern, PageUrl, SchemeMatch};

fn accepts(pattern: &str, url: &str) -> bool {
    let p = MatchPattern::parse(pattern).expect("pattern parses");
    let u = PageUrl::parse(url).expect("url parses");
    p.matches_url(&u)
}

#[test]
fn all_urls_accepts_http_and_https_only() {
    assert!(accepts("<all_urls>", "https://a.b/c"));
    assert!(accepts("<all_urls>", "http://x/"));
    assert!(!accepts("<all_urls>", "ftp://x/"));
}

#[test]
fn wildcard_subdomain_pattern() {
    assert!(accepts("*://*.example.com/*", "https://a.example.com/x"));
    assert!(accepts("*://*.example.com/*", "http://example.com/"));
    assert!(!accepts("*://*.example.com/*", "https://evilexample.com/"));
}

#[test]
fn path_prefix_pattern() {
    assert!(accepts("https://example.com/path/*", "https://example.com/path/sub"));
    assert!(!accepts("https://example.com/path/*", "https://example.com/other"));
}

#[test]
fn exact_path_and_scheme() {
    assert!(accepts("https://example.com/a", "https://example.com/a"));
    assert!(!accepts("https://example.com/a", "https://example.com/a/b"));
    assert!(!accepts("https://example.com/a", "http://example.com/a"));
}

#[test]
fn parse_without_separator_fails() {
    assert!(MatchPattern::parse("example.com/*").is_none());
    assert!(MatchPattern::parse("").is_none());
}

#[test]
fn parse_splits_scheme_host_and_path() {
    let p = MatchPattern::parse("https://*.example.com").unwrap();
    assert!(matches!(p.scheme, SchemeMatch::Exact(ref s) if s == "https"));
    assert!(matches!(p.host, HostMatch::Suffix(ref h) if h == "example.com"));
    assert_eq!(p.path, "/*");
    assert_eq!(p.raw, "https://*.example.com");
    let all = MatchPattern::parse("<all_urls>").unwrap();
    assert!(matches!(all.scheme, SchemeMatch::Any));
    assert!(matches!(all.host, HostMatch::Any));
    assert_eq!(all.path, "*");
    let any = MatchPattern::parse("*://*/x/*").unwrap();
    assert!(matches!(any.host, HostMatch::Any));
    assert_eq!(any.path, "/x/*");
}

#[test]
fn exact_host_rejects_subdomain() {
    assert!(accepts("*://example.com/*", "https://example.com/q"));
    assert!(!accepts("*://example.com/*", "https://www.example.com/q"));
}

#[test]
fn page_url_parts() {
    let u = PageUrl::parse("https://Example.com:8080/a/b?q=1").unwrap();
    assert_eq!(u.scheme, "https");
    assert_eq!(u.host.as_deref(), Some("example.com"));
    assert_eq!(u.path, "/a/b");
    assert!(PageUrl::parse("not a url").is_none());
}
